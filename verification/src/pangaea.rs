use vstd::prelude::*;

verus! {

/// Spec-level image of one search hit.
#[verifier::ext_equal]
pub struct PangaeaEntryValue {
    pub id: Seq<char>,
    pub publisher: Seq<char>,
    pub download_url: Seq<char>,
}

/// One dataset descriptor from the search index: its external id, its
/// publisher and where its archive is downloaded from.
#[derive(Debug)]
pub struct PangaeaSearchResultEntry {
    id: String,
    publisher: String,
    download_url: String,
}

impl DeepView for PangaeaSearchResultEntry {
    type V = PangaeaEntryValue;

    closed spec fn deep_view(&self) -> PangaeaEntryValue {
        PangaeaEntryValue {
            id: self.id@,
            publisher: self.publisher@,
            download_url: self.download_url@,
        }
    }
}

impl PangaeaSearchResultEntry {
    /// An entry from its three strings.
    pub fn new(id: String, publisher: String, download_url: String) -> (r:
        PangaeaSearchResultEntry)
        ensures
            r.deep_view() == (PangaeaEntryValue {
                id: id@,
                publisher: publisher@,
                download_url: download_url@,
            }),
    {
        PangaeaSearchResultEntry { id, publisher, download_url }
    }

    /// The external id of the dataset.
    pub fn id(&self) -> (r: &str)
        ensures
            r@ == self.deep_view().id,
    {
        self.id.as_str()
    }

    /// The publisher of the dataset.
    pub fn publisher(&self) -> (r: &str)
        ensures
            r@ == self.deep_view().publisher,
    {
        self.publisher.as_str()
    }

    /// Where the dataset's archive is downloaded from.
    pub fn download_url(&self) -> (r: &str)
        ensures
            r@ == self.deep_view().download_url,
    {
        self.download_url.as_str()
    }

    /// A copy with the same view.
    pub fn duplicate(&self) -> (r: PangaeaSearchResultEntry)
        ensures
            r.deep_view() == self.deep_view(),
    {
        PangaeaSearchResultEntry {
            id: self.id.clone(),
            publisher: self.publisher.clone(),
            download_url: self.download_url.clone(),
        }
    }
}

/// One page of the search index: the scroll cursor, the total hit count
/// the index reported, and this page's hits in order.
#[derive(Debug)]
pub struct PangaeaSearchResult {
    scroll_id: String,
    total: u64,
    hits: Vec<PangaeaSearchResultEntry>,
}

impl PangaeaSearchResult {
    /// The entries this page holds.
    pub closed spec fn entries(&self) -> Seq<PangaeaEntryValue> {
        self.hits.deep_view()
    }

    /// A page from its parts.
    pub fn new(scroll_id: String, total: u64, hits: Vec<PangaeaSearchResultEntry>) -> (r:
        PangaeaSearchResult)
        ensures
            r.entries() == hits.deep_view(),
            r.scroll_id_view() == scroll_id@,
    {
        PangaeaSearchResult { scroll_id, total, hits }
    }

    /// The scroll cursor of this page.
    pub closed spec fn scroll_id_view(&self) -> Seq<char> {
        self.scroll_id@
    }

    /// The scroll cursor that fetches the page after this one.
    pub fn scroll_id(&self) -> (r: &str)
        ensures
            r@ == self.scroll_id_view(),
    {
        self.scroll_id.as_str()
    }

    /// Whether another page should be fetched: this page still carried
    /// hits.
    pub fn wants_more(&self) -> (r: bool)
        ensures
            r == (self.entries().len() > 0),
    {
        self.hits.len() > 0
    }

    /// All entries of a run of pages, in page order: what scrolling the
    /// search index collects.
    pub fn retrieve_all_entries(pages: &Vec<PangaeaSearchResult>) -> (r: Vec<
        PangaeaSearchResultEntry,
    >)
        ensures
            r.deep_view() == pages_entries(pages.deep_view()),
    {
        let mut out: Vec<PangaeaSearchResultEntry> = Vec::new();
        let n = pages.len();
        let mut i: usize = 0;
        proof {
            assert(pages.deep_view().subrange(0, 0) =~= Seq::<Seq<PangaeaEntryValue>>::empty());
        }
        while i < n
            invariant
                i <= n,
                n == pages@.len(),
                out.deep_view() == pages_entries(pages.deep_view().subrange(0, i as int)),
            decreases n - i,
        {
            let page = &pages[i];
            let m = page.hits.len();
            let ghost before = out.deep_view();
            let ghost blen = out@.len();
            let mut j: usize = 0;
            while j < m
                invariant
                    j <= m,
                    m == page.hits@.len(),
                    blen == before.len(),
                    out@.len() == blen + j,
                    forall|k: int| 0 <= k < blen ==> (#[trigger] out@[k]).deep_view() == before[k],
                    forall|k: int|
                        blen <= k < out@.len() ==> (#[trigger] out@[k]).deep_view()
                            == page.hits@[k - blen].deep_view(),
                decreases m - j,
            {
                out.push(page.hits[j].duplicate());
                j += 1;
            }
            proof {
                assert(out.deep_view() =~~= before + page.entries());
            }
            i += 1;
            proof {
                let pre = pages.deep_view().subrange(0, i - 1);
                let cur = pages.deep_view().subrange(0, i as int);
                assert(cur.drop_last() =~= pre);
                assert(cur.last() == pages.deep_view()[i - 1]);
                assert(pages.deep_view()[i - 1] == pages@[i - 1].deep_view());
                assert(page.entries() == pages@[i - 1].entries());
                assert(out.deep_view() == pages_entries(cur));
            }
        }
        proof {
            assert(pages.deep_view().subrange(0, n as int) =~= pages.deep_view());
        }
        out
    }
}

impl DeepView for PangaeaSearchResult {
    type V = Seq<PangaeaEntryValue>;

    open spec fn deep_view(&self) -> Seq<PangaeaEntryValue> {
        self.entries()
    }
}

/// The entries of a run of pages, in page order.
pub open spec fn pages_entries(pages: Seq<Seq<PangaeaEntryValue>>) -> Seq<PangaeaEntryValue>
    decreases pages.len(),
{
    if pages.len() == 0 {
        Seq::empty()
    } else {
        pages_entries(pages.drop_last()) + pages.last()
    }
}

} // verus!

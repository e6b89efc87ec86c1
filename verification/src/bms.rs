use vstd::prelude::*;

use vstd::string::StringExecFns;

use crate::strutil::dec_of;
use crate::strutil::usize_to_dec;

verus! {

/// Spec-level image of a provider.
#[verifier::ext_equal]
pub struct BmsProviderValue {
    pub id: Seq<char>,
    pub shortname: Seq<char>,
    pub name: Seq<char>,
    pub url: Seq<char>,
    pub biocase_url: Seq<char>,
}

/// One data provider of the monitoring system; its identifier is its
/// `url`.
#[derive(Debug)]
pub struct BmsProvider {
    pub id: String,
    pub shortname: String,
    pub name: String,
    pub url: String,
    pub biocase_url: String,
}

impl DeepView for BmsProvider {
    type V = BmsProviderValue;

    open spec fn deep_view(&self) -> BmsProviderValue {
        BmsProviderValue {
            id: self.id@,
            shortname: self.shortname@,
            name: self.name@,
            url: self.url@,
            biocase_url: self.biocase_url@,
        }
    }
}

impl BmsProvider {
    /// A copy with the same view.
    pub fn duplicate(&self) -> (r: BmsProvider)
        ensures
            r.deep_view() == self.deep_view(),
    {
        BmsProvider {
            id: self.id.clone(),
            shortname: self.shortname.clone(),
            name: self.name.clone(),
            url: self.url.clone(),
            biocase_url: self.biocase_url.clone(),
        }
    }
}

/// The provider a url denotes: the last provider carrying that url.
pub open spec fn provider_lookup(s: Seq<BmsProviderValue>, url: Seq<char>) -> Option<
    BmsProviderValue,
>
    decreases s.len(),
{
    if s.len() == 0 {
        None
    } else if s.last().url == url {
        Some(s.last())
    } else {
        provider_lookup(s.drop_last(), url)
    }
}

/// All providers, looked up by their `url`.
#[derive(Debug)]
pub struct BmsProviders {
    providers: Vec<BmsProvider>,
}

impl DeepView for BmsProviders {
    type V = Seq<BmsProviderValue>;

    closed spec fn deep_view(&self) -> Seq<BmsProviderValue> {
        self.providers.deep_view()
    }
}

impl BmsProviders {
    /// The providers, keyed by url; a later entry for the same url
    /// overrides an earlier one on lookup.
    pub fn new(providers: Vec<BmsProvider>) -> (r: BmsProviders)
        ensures
            r.deep_view() == providers.deep_view(),
    {
        BmsProviders { providers }
    }

    /// The provider registered under a url.
    pub fn value_of(&self, url: &str) -> (r: Option<&BmsProvider>)
        ensures
            match r {
                Some(p) => provider_lookup(self.deep_view(), url@) == Some(p.deep_view()),
                None => provider_lookup(self.deep_view(), url@) is None,
            },
    {
        proof {
            assert(self.deep_view().subrange(0, self.deep_view().len() as int)
                =~= self.deep_view());
        }
        let mut i: usize = self.providers.len();
        while i > 0
            invariant
                i <= self.providers@.len(),
                provider_lookup(self.deep_view(), url@) == provider_lookup(
                    self.deep_view().subrange(0, i as int),
                    url@,
                ),
            decreases i,
        {
            i = i - 1;
            let ghost prefix = self.deep_view().subrange(0, i + 1);
            proof {
                assert(prefix.last() == self.deep_view()[i as int]);
                assert(prefix.drop_last() =~= self.deep_view().subrange(0, i as int));
            }
            if crate::strutil::str_eq_str(self.providers[i].url.as_str(), url) {
                return Some(&self.providers[i]);
            }
        }
        proof {
            assert(self.deep_view().subrange(0, 0) =~= Seq::<BmsProviderValue>::empty());
        }
        None
    }

    /// The provider registered under a url.
    pub fn get(&self, url: &str) -> (r: Option<&BmsProvider>)
        ensures
            match r {
                Some(p) => provider_lookup(self.deep_view(), url@) == Some(p.deep_view()),
                None => provider_lookup(self.deep_view(), url@) is None,
            },
    {
        self.value_of(url)
    }
}

/// Spec-level image of an archive reference.
#[verifier::ext_equal]
pub struct BmsXmlArchiveValue {
    pub id: Seq<char>,
    pub xml_archive: Seq<char>,
    pub latest: bool,
}

/// One archive of a dataset, with the flag naming the latest one.
#[derive(Debug)]
pub struct BmsXmlArchive {
    pub id: String,
    pub xml_archive: String,
    pub latest: bool,
}

impl DeepView for BmsXmlArchive {
    type V = BmsXmlArchiveValue;

    open spec fn deep_view(&self) -> BmsXmlArchiveValue {
        BmsXmlArchiveValue { id: self.id@, xml_archive: self.xml_archive@, latest: self.latest }
    }
}

/// The first archive flagged as latest.
pub open spec fn first_latest(s: Seq<BmsXmlArchiveValue>) -> Option<BmsXmlArchiveValue>
    decreases s.len(),
{
    if s.len() == 0 {
        None
    } else if s.first().latest {
        Some(s.first())
    } else {
        first_latest(s.drop_first())
    }
}

/// One dataset of the monitoring system, with its archives.
#[derive(Debug)]
pub struct BmsDataset {
    pub provider_datacenter: String,
    pub provider_url: String,
    pub dsa: String,
    pub dataset: String,
    pub xml_archives: Vec<BmsXmlArchive>,
}

/// The result of a landing page generator request.
#[derive(Debug)]
pub struct BmsLandingPage {
    pub provider: String,
    pub data_set: String,
    pub data_unit: String,
}

/// This error occurs when a dataset offers no archive to download.
#[derive(Debug)]
pub struct DatasetContainsNoFile {
    dataset: String,
}

impl DatasetContainsNoFile {
    /// The error for a dataset name.
    pub fn new(dataset: &str) -> (r: DatasetContainsNoFile)
        ensures
            r.dataset_name() == dataset@,
    {
        DatasetContainsNoFile { dataset: dataset.to_owned() }
    }

    /// The name of the dataset without a file.
    pub closed spec fn dataset_name(&self) -> Seq<char> {
        self.dataset@
    }

    /// A short description of the error.
    pub fn message(&self) -> (r: String)
        ensures
            r@ == "Dataset "@ + self.dataset_name() + " contains no file to download."@,
    {
        let mut s: String = "Dataset ".to_owned();
        s.append(self.dataset.as_str());
        s.append(" contains no file to download.");
        s
    }
}

impl BmsDataset {
    /// The archive flagged as latest, or the error where none is.
    pub fn get_latest_archive(&self) -> (r: Result<&BmsXmlArchive, DatasetContainsNoFile>)
        ensures
            match r {
                Ok(a) => first_latest(self.xml_archives.deep_view()) == Some(a.deep_view()),
                Err(e) => first_latest(self.xml_archives.deep_view()) is None && e.dataset_name()
                    == self.dataset@,
            },
    {
        let n = self.xml_archives.len();
        let mut i: usize = 0;
        proof {
            assert(self.xml_archives.deep_view().skip(0) =~= self.xml_archives.deep_view());
        }
        while i < n
            invariant
                i <= n,
                n == self.xml_archives@.len(),
                first_latest(self.xml_archives.deep_view()) == first_latest(
                    self.xml_archives.deep_view().skip(i as int),
                ),
            decreases n - i,
        {
            let ghost rest = self.xml_archives.deep_view().skip(i as int);
            proof {
                assert(rest.len() > 0);
                assert(rest.first() == self.xml_archives.deep_view()[i as int]);
                assert(rest.drop_first() =~= self.xml_archives.deep_view().skip(i + 1));
            }
            if self.xml_archives[i].latest {
                return Ok(&self.xml_archives[i]);
            }
            i += 1;
        }
        proof {
            assert(self.xml_archives.deep_view().skip(n as int) =~= Seq::<
                BmsXmlArchiveValue,
            >::empty());
        }
        Err(DatasetContainsNoFile::new(self.dataset.as_str()))
    }
}

/// One planned archive download: the file it lands in, named after the
/// dataset's position, and the url it comes from.
#[derive(Debug)]
pub struct DownloadedBmsDataset {
    pub path: String,
    pub url: String,
}

impl DownloadedBmsDataset {
    /// A descriptor for a downloaded dataset.
    pub fn new(path: String, url: String) -> (r: DownloadedBmsDataset)
        ensures
            r.path@ == path@,
            r.url@ == url@,
    {
        DownloadedBmsDataset { path, url }
    }
}

/// The download plans for a run of datasets, in order: the latest archive
/// of the dataset at position `i` goes to file `i`.zip, and a dataset
/// without a latest archive keeps its error.
pub fn download_datasets(datasets: &Vec<BmsDataset>) -> (r: Vec<
    Result<DownloadedBmsDataset, DatasetContainsNoFile>,
>)
    ensures
        r@.len() == datasets@.len(),
        forall|i: int|
            0 <= i < r@.len() ==> match #[trigger] r@[i] {
                Ok(d) => {
                    &&& first_latest(datasets@[i].xml_archives.deep_view()) matches Some(a)
                        && d.url@ == a.xml_archive
                    &&& d.path@ == dec_of(i as nat) + ".zip"@
                },
                Err(e) => first_latest(datasets@[i].xml_archives.deep_view()) is None
                    && e.dataset_name() == datasets@[i].dataset@,
            },
{
    let n = datasets.len();
    let mut out: Vec<Result<DownloadedBmsDataset, DatasetContainsNoFile>> = Vec::new();
    let mut i: usize = 0;
    while i < n
        invariant
            i <= n,
            n == datasets@.len(),
            out@.len() == i,
            forall|j: int|
                0 <= j < i ==> match #[trigger] out@[j] {
                    Ok(d) => {
                        &&& first_latest(datasets@[j].xml_archives.deep_view()) matches Some(a)
                            && d.url@ == a.xml_archive
                        &&& d.path@ == dec_of(j as nat) + ".zip"@
                    },
                    Err(e) => first_latest(datasets@[j].xml_archives.deep_view()) is None
                        && e.dataset_name() == datasets@[j].dataset@,
                },
        decreases n - i,
    {
        match datasets[i].get_latest_archive() {
            Ok(archive) => {
                let url = archive.xml_archive.clone();
                let mut path = usize_to_dec(i);
                path.append(".zip");
                out.push(Ok(DownloadedBmsDataset::new(path, url)));
            },
            Err(e) => {
                out.push(Err(e));
            },
        }
        i += 1;
    }
    out
}

} // verus!

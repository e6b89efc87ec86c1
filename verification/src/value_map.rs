use vstd::prelude::*;

use crate::assoc::assoc_map;
use crate::assoc::lemma_assoc_absent;
use crate::assoc::lemma_assoc_found;
use crate::vat_type::VatType;
use crate::vat_type::VatValue;

verus! {

/// The spec-level image of a vector of keyed values.
pub open spec fn entries_view(s: Seq<(String, VatType)>) -> Seq<(Seq<char>, VatValue)> {
    s.map(|i: int, e: (String, VatType)| (e.0@, e.1@))
}

/// The values gathered for one container (a dataset or a unit), keyed by
/// field path.
#[derive(Debug)]
pub struct ValueMap {
    entries: Vec<(String, VatType)>,
}

impl View for ValueMap {
    type V = Map<Seq<char>, VatValue>;

    closed spec fn view(&self) -> Map<Seq<char>, VatValue> {
        assoc_map(entries_view(self.entries@))
    }
}

impl DeepView for ValueMap {
    type V = Map<Seq<char>, VatValue>;

    open spec fn deep_view(&self) -> Map<Seq<char>, VatValue> {
        self.view()
    }
}

impl ValueMap {
    /// An empty value map.
    pub fn new() -> (r: ValueMap)
        ensures
            r@ == Map::<Seq<char>, VatValue>::empty(),
    {
        ValueMap { entries: Vec::new() }
    }

    /// Store a value under a key; a later value for the same key overrides
    /// an earlier one.
    pub fn insert(&mut self, key: String, value: VatType)
        ensures
            final(self)@ == old(self)@.insert(key@, value@),
    {
        let ghost old_entries = self.entries@;
        self.entries.push((key, value));
        proof {
            assert(entries_view(self.entries@).drop_last() =~= entries_view(old_entries));
            assert(entries_view(self.entries@).last() == (key@, value@));
        }
    }

    /// Look a key up; the latest value stored under it comes back.
    pub fn get(&self, key: &String) -> (r: Option<&VatType>)
        ensures
            match r {
                Some(v) => self@.contains_key(key@) && self@[key@] == v@,
                None => !self@.contains_key(key@),
            },
    {
        let mut i: usize = self.entries.len();
        while i > 0
            invariant
                i <= self.entries@.len(),
                forall|j: int|
                    i <= j < self.entries@.len() ==> #[trigger] entries_view(self.entries@)[j].0
                        != key@,
            decreases i,
        {
            i = i - 1;
            if self.entries[i].0 == *key {
                proof {
                    lemma_assoc_found(entries_view(self.entries@), key@, i as int);
                }
                return Some(&self.entries[i].1);
            }
        }
        proof {
            lemma_assoc_absent(entries_view(self.entries@), key@);
        }
        None
    }

    /// Take the gathered values out, leaving the map empty.
    pub fn take(&mut self) -> (r: ValueMap)
        ensures
            r@ == old(self)@,
            final(self)@ == Map::<Seq<char>, VatValue>::empty(),
    {
        let n = self.entries.len();
        let mut out: Vec<(String, VatType)> = Vec::new();
        let mut i: usize = 0;
        while i < n
            invariant
                i <= n,
                n == self.entries@.len(),
                out@.len() == i,
                forall|j: int|
                    0 <= j < i ==> (#[trigger] out@[j]).0@ == self.entries@[j].0@ && out@[j].1@
                        == self.entries@[j].1@,
            decreases n - i,
        {
            let key = self.entries[i].0.clone();
            let value = self.entries[i].1.duplicate();
            out.push((key, value));
            i += 1;
        }
        proof {
            assert(entries_view(out@) =~= entries_view(self.entries@));
        }
        self.entries.clear();
        proof {
            assert(entries_view(Seq::<(String, VatType)>::empty()) =~= Seq::<
                (Seq<char>, VatValue),
            >::empty());
        }
        ValueMap { entries: out }
    }
}

} // verus!

use vstd::prelude::*;

use crate::assoc::assoc_map;
use crate::assoc::lemma_assoc_absent;
use crate::assoc::lemma_assoc_found;

verus! {

/// The answer of the registry: a key assigned right now, or the key the
/// external id already had.
#[derive(Debug, PartialEq, Eq, Structural)]
pub enum SurrogateKeyType {
    New(u32),
    Existing(u32),
}

/// The registry that ties every external dataset id to one surrogate key,
/// assigned monotonically from 1.
#[derive(Debug)]
pub struct SurrogateKey {
    entries: Vec<(String, u32)>,
    next_key: u32,
}

pub open spec fn key_entries_view(s: Seq<(String, u32)>) -> Seq<(Seq<char>, u32)> {
    s.map(|i: int, e: (String, u32)| (e.0@, e.1))
}

impl View for SurrogateKey {
    type V = Map<Seq<char>, u32>;

    closed spec fn view(&self) -> Map<Seq<char>, u32> {
        assoc_map(key_entries_view(self.entries@))
    }
}

impl SurrogateKey {
    /// How many ids have a key.
    pub closed spec fn key_count(&self) -> nat {
        self.entries@.len()
    }

    /// The registry's invariant: keys run 1, 2, ... in insertion order and
    /// no id occurs twice.
    pub closed spec fn wf(&self) -> bool {
        &&& self.next_key == self.entries@.len() + 1
        &&& forall|i: int|
            0 <= i < self.entries@.len() ==> (#[trigger] self.entries@[i]).1 == i + 1
        &&& forall|i: int, j: int|
            0 <= i < j < self.entries@.len() ==> (#[trigger] self.entries@[i]).0@ != (
            #[trigger] self.entries@[j]).0@
    }

    /// An empty registry; the first key it hands out is 1.
    pub fn new() -> (r: SurrogateKey)
        ensures
            r.wf(),
            r@ == Map::<Seq<char>, u32>::empty(),
            r.key_count() == 0,
    {
        SurrogateKey { entries: Vec::new(), next_key: 1 }
    }

    /// How many ids have a key.
    pub fn assigned(&self) -> (r: usize)
        ensures
            r == self.key_count(),
    {
        self.entries.len()
    }

    /// The key for an external id: the stored one if the id was seen, else
    /// the next free key, which the id keeps from now on.
    pub fn for_id(&mut self, id: &str) -> (r: SurrogateKeyType)
        requires
            old(self).wf(),
            old(self).key_count() + 2 <= u32::MAX,
        ensures
            final(self).wf(),
            match r {
                SurrogateKeyType::Existing(k) => {
                    &&& old(self)@.contains_key(id@)
                    &&& k == old(self)@[id@]
                    &&& final(self)@ == old(self)@
                    &&& final(self).key_count() == old(self).key_count()
                },
                SurrogateKeyType::New(k) => {
                    &&& !old(self)@.contains_key(id@)
                    &&& k == old(self).key_count() + 1
                    &&& final(self)@ == old(self)@.insert(id@, k)
                    &&& final(self).key_count() == old(self).key_count() + 1
                },
            },
    {
        let id_owned: String = id.to_owned();
        let n = self.entries.len();
        let mut i: usize = 0;
        while i < n
            invariant
                i <= n,
                n == self.entries@.len(),
                self.wf(),
                self == old(self),
                id_owned@ == id@,
                forall|j: int|
                    0 <= j < i ==> (#[trigger] self.entries@[j]).0@ != id@,
            decreases n - i,
        {
            if self.entries[i].0 == id_owned {
                let key = self.entries[i].1;
                proof {
                    assert(self.entries@[i as int].0@ == id@);
                    assert forall|j: int|
                        i < j < self.entries@.len() implies key_entries_view(self.entries@)[j].0
                        != id@ by {
                        assert(self.entries@[i as int].0@ != self.entries@[j].0@);
                    };
                    lemma_assoc_found(key_entries_view(self.entries@), id@, i as int);
                }
                return SurrogateKeyType::Existing(key);
            }
            i += 1;
        }
        proof {
            assert forall|j: int|
                0 <= j < self.entries@.len() implies key_entries_view(self.entries@)[j].0
                != id@ by {
                assert(self.entries@[j].0@ != id@);
            };
            lemma_assoc_absent(key_entries_view(self.entries@), id@);
        }
        let key = self.next_key;
        let ghost old_entries = self.entries@;
        self.entries.push((id_owned, key));
        self.next_key = self.next_key + 1;
        proof {
            assert(key_entries_view(self.entries@).drop_last() =~= key_entries_view(old_entries));
            assert(key_entries_view(self.entries@).last() == (id@, key));
        }
        SurrogateKeyType::New(key)
    }
}

} // verus!

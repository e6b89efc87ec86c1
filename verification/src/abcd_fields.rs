use vstd::prelude::*;

use crate::strutil::chars_of;
use crate::strutil::vec_char_eq;

verus! {

/// Spec-level image of a dictionary entry.
#[verifier::ext_equal]
pub struct AbcdFieldValue {
    pub name: Seq<char>,
    pub numeric: bool,
    pub vat_mandatory: bool,
    pub gfbio_mandatory: bool,
    pub global_field: bool,
    pub unit: Seq<char>,
}

/// One entry of the field dictionary: an ABCD path and how values found
/// under it are treated.
#[derive(Debug)]
pub struct AbcdField {
    pub name: String,
    pub numeric: bool,
    pub vat_mandatory: bool,
    pub gfbio_mandatory: bool,
    pub global_field: bool,
    pub unit: String,
}

impl View for AbcdField {
    type V = AbcdFieldValue;

    open spec fn view(&self) -> AbcdFieldValue {
        AbcdFieldValue {
            name: self.name@,
            numeric: self.numeric,
            vat_mandatory: self.vat_mandatory,
            gfbio_mandatory: self.gfbio_mandatory,
            global_field: self.global_field,
            unit: self.unit@,
        }
    }
}

impl AbcdField {
    /// A copy with the same view.
    pub fn duplicate(&self) -> (r: AbcdField)
        ensures
            r@ == self@,
    {
        AbcdField {
            name: self.name.clone(),
            numeric: self.numeric,
            vat_mandatory: self.vat_mandatory,
            gfbio_mandatory: self.gfbio_mandatory,
            global_field: self.global_field,
            unit: self.unit.clone(),
        }
    }
}

/// The entry a path denotes: the last dictionary entry carrying that path.
pub open spec fn dict_lookup(s: Seq<AbcdFieldValue>, path: Seq<char>) -> Option<AbcdFieldValue>
    decreases s.len(),
{
    if s.len() == 0 {
        None
    } else if s.last().name == path {
        Some(s.last())
    } else {
        dict_lookup(s.drop_last(), path)
    }
}

/// A path carried by some dictionary entry is always found.
pub proof fn lemma_dict_lookup_present(s: Seq<AbcdFieldValue>, i: int)
    requires
        0 <= i < s.len(),
    ensures
        dict_lookup(s, s[i].name) is Some,
    decreases s.len(),
{
    if i < s.len() - 1 && s.last().name != s[i].name {
        lemma_dict_lookup_present(s.drop_last(), i);
    }
}

/// The field dictionary: the projection the parser and the loader work
/// from, keyed by ABCD path.
#[derive(Debug)]
pub struct AbcdFields {
    keys: Vec<Vec<char>>,
    fields: Vec<AbcdField>,
}

impl View for AbcdFields {
    type V = Seq<AbcdFieldValue>;

    closed spec fn view(&self) -> Seq<AbcdFieldValue> {
        self.fields@.map(|i: int, f: AbcdField| f@)
    }
}

impl AbcdFields {
    /// The keys run parallel to the fields and hold their paths' characters.
    pub closed spec fn wf(&self) -> bool {
        &&& self.keys@.len() == self.fields@.len()
        &&& forall|i: int|
            0 <= i < self.keys@.len() ==> (#[trigger] self.keys@[i])@ == self.fields@[i].name@
    }

    /// Build the dictionary from a list of entries; a later entry for the
    /// same path overrides an earlier one on lookup.
    pub fn fields_to_map(fields: &Vec<AbcdField>) -> (r: AbcdFields)
        ensures
            r.wf(),
            r@.len() == fields@.len(),
            forall|i: int| 0 <= i < fields@.len() ==> r@[i] == #[trigger] fields@[i]@,
    {
        let n = fields.len();
        let mut keys: Vec<Vec<char>> = Vec::new();
        let mut copies: Vec<AbcdField> = Vec::new();
        let mut i: usize = 0;
        while i < n
            invariant
                i <= n,
                n == fields@.len(),
                keys@.len() == i,
                copies@.len() == i,
                forall|j: int| 0 <= j < i ==> (#[trigger] copies@[j])@ == fields@[j]@,
                forall|j: int| 0 <= j < i ==> (#[trigger] keys@[j])@ == fields@[j].name@,
            decreases n - i,
        {
            keys.push(chars_of(fields[i].name.as_str()));
            copies.push(fields[i].duplicate());
            i += 1;
        }
        let r = AbcdFields { keys, fields: copies };
        proof {
            assert(forall|j: int| 0 <= j < n ==> r@[j] == #[trigger] fields@[j]@);
        }
        r
    }

    /// The dictionary entry for a path, if the path names a field.
    pub fn value_of(&self, path: &Vec<char>) -> (r: Option<&AbcdField>)
        requires
            self.wf(),
        ensures
            match r {
                Some(f) => dict_lookup(self@, path@) == Some(f@),
                None => dict_lookup(self@, path@) is None,
            },
    {
        proof {
            assert(self@.subrange(0, self@.len() as int) =~= self@);
        }
        let mut i: usize = self.fields.len();
        while i > 0
            invariant
                self.wf(),
                i <= self.fields@.len(),
                dict_lookup(self@, path@) == dict_lookup(self@.subrange(0, i as int), path@),
            decreases i,
        {
            i = i - 1;
            let ghost prefix = self@.subrange(0, i + 1);
            proof {
                assert(prefix.last() == self@[i as int]);
                assert(prefix.drop_last() =~= self@.subrange(0, i as int));
            }
            if vec_char_eq(&self.keys[i], path) {
                proof {
                    assert(self@[i as int].name == path@);
                }
                return Some(&self.fields[i]);
            }
        }
        proof {
            assert(self@.subrange(0, 0) =~= Seq::<AbcdFieldValue>::empty());
        }
        None
    }

    /// How many fields the dictionary holds.
    pub fn len(&self) -> (r: usize)
        ensures
            r == self@.len(),
    {
        self.fields.len()
    }

    /// The field at one position of the dictionary's iteration order.
    pub fn field_at(&self, i: usize) -> (r: &AbcdField)
        requires
            i < self@.len(),
        ensures
            r@ == self@[i as int],
    {
        &self.fields[i]
    }
}

} // verus!

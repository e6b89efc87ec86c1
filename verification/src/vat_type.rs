use vstd::prelude::*;

verus! {

/// Spec-level image of a `VatType` value.
#[verifier::ext_equal]
pub enum VatValue {
    Textual(Seq<char>),
    Numeric(Seq<char>),
}

/// A parsed field value: free text, or a number held in its canonical
/// decimal rendering.
#[derive(Debug, PartialEq)]
pub enum VatType {
    Textual(String),
    Numeric(String),
}

impl View for VatType {
    type V = VatValue;

    open spec fn view(&self) -> VatValue {
        match self {
            VatType::Textual(s) => VatValue::Textual(s@),
            VatType::Numeric(s) => VatValue::Numeric(s@),
        }
    }
}

/// The characters written into a tabular row for a value.
pub open spec fn vat_text(v: VatValue) -> Seq<char> {
    match v {
        VatValue::Textual(s) => s,
        VatValue::Numeric(s) => s,
    }
}

impl VatType {
    /// The rendering written into a tabular row: the text itself, or the
    /// canonical form of the number.
    pub fn render(&self) -> (r: String)
        ensures
            r@ == vat_text(self@),
    {
        match self {
            VatType::Textual(s) => s.clone(),
            VatType::Numeric(s) => s.clone(),
        }
    }

    /// A copy with the same view.
    pub fn duplicate(&self) -> (r: VatType)
        ensures
            r@ == self@,
    {
        match self {
            VatType::Textual(s) => VatType::Textual(s.clone()),
            VatType::Numeric(s) => VatType::Numeric(s.clone()),
        }
    }
}

/// What `serde_json` makes of a piece of text offered as a number: `Some`
/// canonical rendering where the text is a well-formed number, `None`
/// otherwise.
pub uninterp spec fn canon_num_of(s: Seq<char>) -> Option<Seq<char>>;

/// Relies on `serde_json::Number`: whether a string parses as a number and
/// the rendering of the parsed number depend on the characters alone.
#[verifier::external_body]
pub(crate) fn canonical_number(s: &str) -> (r: Option<String>)
    ensures
        r is Some <==> canon_num_of(s@) is Some,
        r matches Some(t) ==> canon_num_of(s@) == Some(t@),
{
    match serde_json::from_str::<serde_json::Number>(s) {
        Ok(n) => Some(n.to_string()),
        Err(_) => None,
    }
}

} // verus!

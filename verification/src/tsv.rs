use vstd::prelude::*;

verus! {

/// Whether a field must be quoted in a delimited record: it holds the
/// delimiter, a quote, or a line break.
pub open spec fn needs_quotes(f: Seq<char>, delim: char) -> bool {
    exists|i: int|
        0 <= i < f.len() && (f[i] == delim || f[i] == '"' || f[i] == '\n' || f[i] == '\r')
}

/// The field with every quote doubled.
pub open spec fn double_quotes(f: Seq<char>) -> Seq<char>
    decreases f.len(),
{
    if f.len() == 0 {
        Seq::empty()
    } else {
        double_quotes(f.drop_last()) + (if f.last() == '"' {
            seq!['"', '"']
        } else {
            seq![f.last()]
        })
    }
}

/// One field as written: quoted with doubled quotes where needed, as it
/// stands otherwise.
pub open spec fn quoted_field(f: Seq<char>, delim: char) -> Seq<char> {
    if needs_quotes(f, delim) {
        seq!['"'] + double_quotes(f) + seq!['"']
    } else {
        f
    }
}

/// The written fields joined with the delimiter.
pub open spec fn fields_joined(fields: Seq<Seq<char>>, delim: char) -> Seq<char>
    decreases fields.len(),
{
    if fields.len() == 0 {
        Seq::empty()
    } else if fields.len() == 1 {
        quoted_field(fields[0], delim)
    } else {
        fields_joined(fields.drop_last(), delim) + seq![delim] + quoted_field(
            fields.last(),
            delim,
        )
    }
}

/// One delimited record: the joined fields and the terminator; a record
/// whose fields wrote nothing is written as a pair of quotes, so that the
/// line is not empty.
pub open spec fn csv_record_of(fields: Seq<Seq<char>>, delim: char) -> Seq<char> {
    let joined = fields_joined(fields, delim);
    if joined.len() == 0 {
        seq!['"', '"', '\n']
    } else {
        joined + seq!['\n']
    }
}

/// Relies on `csv::Writer` with quote `"`, escaping by doubling, and the
/// record terminator `\n`: a field is quoted exactly where it holds the
/// delimiter, a quote, `\n` or `\r`; quotes inside a quoted field are
/// doubled; fields are joined with the delimiter; a record that wrote no
/// byte is written as `""`; the terminator ends the record.
#[verifier::external_body]
pub(crate) fn csv_record(fields: &Vec<String>, delim: char) -> (r: String)
    requires
        delim == '\t' || delim == ',',
    ensures
        r@ == csv_record_of(fields.deep_view(), delim),
{
    let mut w = csv::WriterBuilder::new()
        .delimiter(delim as u8)
        .terminator(csv::Terminator::Any(b'\n'))
        .quote(b'"')
        .escape(b'"')
        .has_headers(false)
        .from_writer(Vec::new());
    for f in fields.iter() {
        let _ = w.write_field(f);
    }
    let _ = w.write_record(None::<&[u8]>);
    String::from_utf8(w.into_inner().unwrap_or_default()).unwrap_or_default()
}

} // verus!

use vstd::prelude::*;

use quick_xml::Reader;
use quick_xml::events::Event;
use vstd::string::StrSliceExecFns;

use crate::strutil::chars_of;

verus! {

/// Spec-level image of one event of an XML document.
#[verifier::ext_equal]
pub enum XmlEventValue {
    /// A start tag with its name and its attribute values, in order.
    Open { name: Seq<char>, attrs: Seq<Seq<char>> },
    /// An end tag with its name.
    Close { name: Seq<char> },
    /// One raw piece of character data.
    Text { content: Seq<char> },
    /// A general entity reference, by its name.
    Ref { name: Seq<char> },
    /// Any other markup; it only ends a run of character data.
    Break,
}

/// One event of an XML document, as the reader hands it out: a start tag
/// with its attribute values, an end tag, character data, an entity
/// reference, or any other markup.
#[derive(Debug)]
pub enum XmlEvent {
    Open(String, Vec<String>),
    Close(String),
    Text(String),
    Ref(String),
    Break,
}

impl DeepView for XmlEvent {
    type V = XmlEventValue;

    open spec fn deep_view(&self) -> XmlEventValue {
        match self {
            XmlEvent::Open(name, attrs) => XmlEventValue::Open {
                name: name@,
                attrs: attrs.deep_view(),
            },
            XmlEvent::Close(name) => XmlEventValue::Close { name: name@ },
            XmlEvent::Text(content) => XmlEventValue::Text { content: content@ },
            XmlEvent::Ref(name) => XmlEventValue::Ref { name: name@ },
            XmlEvent::Break => XmlEventValue::Break,
        }
    }
}

/// What `quick_xml` makes of a byte stream: its events in document order,
/// or nothing where the document is malformed.
pub uninterp spec fn xml_events_of(bytes: Seq<u8>) -> Option<Seq<XmlEventValue>>;

/// Relies on `quick_xml::Reader`: the events of the document in document
/// order, each start, end, text and entity-reference event passed through,
/// any other markup marking a break; a malformed document gives an error.
/// The events depend on the bytes alone.
#[verifier::external_body]
pub(crate) fn read_xml_events(xml: &[u8]) -> (r: Option<Vec<XmlEvent>>)
    ensures
        r is Some <==> xml_events_of(xml@) is Some,
        r matches Some(v) ==> xml_events_of(xml@) == Some(v.deep_view()),
{
    let mut reader = Reader::from_reader(xml);
    let mut out = Vec::new();
    loop {
        let event = match reader.read_event() {
            Ok(Event::Start(e)) => XmlEvent::Open(e.name().0.to_string(), e.attributes().flatten().map(|a| a.value.into_owned()).collect()),
            Ok(Event::End(e)) => XmlEvent::Close(e.name().0.to_string()),
            Ok(Event::Text(e)) => XmlEvent::Text(e.to_string()),
            Ok(Event::GeneralRef(e)) => XmlEvent::Ref(e.to_string()),
            Ok(Event::Eof) => return Some(out),
            Ok(_) => XmlEvent::Break,
            Err(_) => return None,
        };
        out.push(event);
    }
}

/// Whether a character counts as XML whitespace.
pub open spec fn is_ws(c: char) -> bool {
    c == ' ' || c == '\t' || c == '\r' || c == '\n'
}

/// How many whitespace characters the text starts with.
pub open spec fn ws_prefix_len(s: Seq<char>) -> nat
    decreases s.len(),
{
    if s.len() > 0 && is_ws(s.first()) {
        1 + ws_prefix_len(s.drop_first())
    } else {
        0
    }
}

/// How many whitespace characters the text ends with.
pub open spec fn ws_suffix_len(s: Seq<char>) -> nat
    decreases s.len(),
{
    if s.len() > 0 && is_ws(s.last()) {
        1 + ws_suffix_len(s.drop_last())
    } else {
        0
    }
}

/// The text with surrounding whitespace removed.
pub open spec fn trim_of(s: Seq<char>) -> Seq<char> {
    if ws_prefix_len(s) == s.len() {
        Seq::empty()
    } else {
        s.subrange(ws_prefix_len(s) as int, s.len() - ws_suffix_len(s))
    }
}

proof fn lemma_ws_prefix(s: Seq<char>, i: int)
    requires
        0 <= i <= s.len(),
        forall|k: int| 0 <= k < i ==> is_ws(#[trigger] s[k]),
        i == s.len() || !is_ws(s[i]),
    ensures
        ws_prefix_len(s) == i,
    decreases i,
{
    if i > 0 {
        lemma_ws_prefix(s.drop_first(), i - 1);
    }
}

proof fn lemma_ws_suffix(s: Seq<char>, i: int)
    requires
        0 <= i <= s.len(),
        forall|k: int| s.len() - i <= k < s.len() ==> is_ws(#[trigger] s[k]),
        i == s.len() || !is_ws(s[s.len() - i - 1]),
    ensures
        ws_suffix_len(s) == i,
    decreases i,
{
    if i > 0 {
        lemma_ws_suffix(s.drop_last(), i - 1);
    }
}

fn is_ws_exec(c: char) -> (r: bool)
    ensures
        r == is_ws(c),
{
    c == ' ' || c == '\t' || c == '\r' || c == '\n'
}

/// The text with surrounding whitespace removed.
pub fn trim_text(s: &str) -> (r: String)
    ensures
        r@ == trim_of(s@),
{
    let n = s.unicode_len();
    let mut start: usize = 0;
    while start < n && is_ws_exec(s.get_char(start))
        invariant
            start <= n,
            n == s@.len(),
            forall|k: int| 0 <= k < start ==> is_ws(#[trigger] s@[k]),
        decreases n - start,
    {
        start += 1;
    }
    if start == n {
        proof {
            lemma_ws_prefix(s@, n as int);
        }
        return String::new();
    }
    proof {
        lemma_ws_prefix(s@, start as int);
    }
    let mut end: usize = n;
    while end > start && is_ws_exec(s.get_char(end - 1))
        invariant
            start <= end <= n,
            n == s@.len(),
            !is_ws(s@[start as int]),
            forall|k: int| end <= k < n ==> is_ws(#[trigger] s@[k]),
        decreases end,
    {
        end -= 1;
    }
    proof {
        lemma_ws_suffix(s@, n - end);
    }
    let r = s.substring_char(start, end).to_owned();
    r
}

/// The name after its namespace prefix: everything past the first colon,
/// or the whole name where no colon occurs.
pub open spec fn strip_of(s: Seq<char>) -> Seq<char>
    decreases s.len(),
{
    if !has_colon(s) {
        s
    } else if s.first() == ':' {
        s.drop_first()
    } else {
        strip_of(s.drop_first())
    }
}

/// Whether a name carries a namespace prefix.
pub open spec fn has_colon(s: Seq<char>) -> bool {
    exists|i: int| 0 <= i < s.len() && s[i] == ':'
}

/// The name of a tag with its namespace prefix stripped.
pub fn strip_tag(name: &str) -> (r: Vec<char>)
    ensures
        r@ == strip_of(name@),
{
    let cs = chars_of(name);
    let n = cs.len();
    let mut i: usize = 0;
    while i < n
        invariant
            i <= n,
            n == cs@.len(),
            cs@ == name@,
            forall|k: int| 0 <= k < i ==> cs@[k] != ':',
        decreases n - i,
    {
        if cs[i] == ':' {
            let mut out: Vec<char> = Vec::new();
            let mut j: usize = i + 1;
            while j < n
                invariant
                    i < j <= n,
                    n == cs@.len(),
                    out@ == cs@.subrange(i + 1, j as int),
                decreases n - j,
            {
                out.push(cs[j]);
                j += 1;
                proof {
                    assert(out@ =~= cs@.subrange(i + 1, j as int));
                }
            }
            proof {
                lemma_strip_at(name@, i as int);
                assert(out@ =~= name@.subrange(i + 1, n as int));
            }
            return out;
        }
        i += 1;
    }
    proof {
        assert(!has_colon(name@));
    }
    cs
}

/// A name whose first colon stands at `i` strips to what follows it.
proof fn lemma_strip_at(s: Seq<char>, i: int)
    requires
        0 <= i < s.len(),
        s[i] == ':',
        forall|k: int| 0 <= k < i ==> s[k] != ':',
    ensures
        strip_of(s) == s.subrange(i + 1, s.len() as int),
    decreases i,
{
    assert(has_colon(s));
    if i == 0 {
        assert(strip_of(s) == s.drop_first());
        assert(s.drop_first() =~= s.subrange(1, s.len() as int));
    } else {
        assert(s.first() != ':');
        lemma_strip_at(s.drop_first(), i - 1);
        assert(s.drop_first().subrange(i, s.drop_first().len() as int) =~= s.subrange(
            i + 1,
            s.len() as int,
        ));
    }
}

/// A namespace prefix does not change the stripped name: a prefixed tag is
/// handled as the bare tag is.
pub proof fn lemma_strip_prefixed(prefix: Seq<char>, name: Seq<char>)
    requires
        !has_colon(prefix),
        !has_colon(name),
    ensures
        strip_of(prefix + seq![':'] + name) == name,
        strip_of(name) == name,
{
    let s = prefix + seq![':'] + name;
    assert(s[prefix.len() as int] == ':');
    assert(forall|k: int| 0 <= k < prefix.len() ==> s[k] == prefix[k]);
    lemma_strip_at(s, prefix.len() as int);
    assert(s.subrange(prefix.len() as int + 1, s.len() as int) =~= name);
}

} // verus!

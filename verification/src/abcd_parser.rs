use vstd::prelude::*;

use vstd::string::StringExecFns;

use crate::abcd_fields::AbcdFieldValue;
use crate::abcd_fields::AbcdFields;
use crate::abcd_fields::dict_lookup;
use crate::settings::AbcdSettings;
use crate::strutil::extend_vec_chars;
use crate::strutil::vec_char_eq_str;
use crate::value_map::ValueMap;
use crate::vat_type::VatType;
use crate::vat_type::VatValue;
use crate::vat_type::canon_num_of;
use crate::vat_type::canonical_number;
use crate::xml_events::XmlEvent;
use crate::xml_events::XmlEventValue;
use crate::xml_events::read_xml_events;
use crate::xml_events::strip_of;
use crate::xml_events::strip_tag;
use crate::xml_events::trim_of;
use crate::xml_events::trim_text;
use crate::xml_events::xml_events_of;

verus! {

/// The ABCD schema version a document declares.
#[derive(Debug, PartialEq, Eq, Structural, Clone, Copy)]
pub enum AbcdVersion {
    Version206,
    Version210,
    Unknown,
}

/// Why a document yields no result.
#[derive(Debug, PartialEq, Eq, Structural, Clone, Copy)]
pub enum AbcdError {
    /// The document is not well-formed XML.
    MalformedXml,
    /// No `/DataSets/DataSet/Units` element was opened, so no dataset
    /// metadata was captured.
    NoDatasetMetadata,
}

impl AbcdError {
    /// A short description of the error.
    pub fn message(&self) -> (r: &'static str)
        ensures
            self is MalformedXml ==> r@ == "ABCD file is not well-formed XML."@,
            self is NoDatasetMetadata ==> r@ == "ABCD file contains no dataset metadata."@,
    {
        match self {
            AbcdError::MalformedXml => "ABCD file is not well-formed XML.",
            AbcdError::NoDatasetMetadata => "ABCD file contains no dataset metadata.",
        }
    }
}

pub open spec fn datasets_path() -> Seq<char> {
    "/DataSets"@
}

pub open spec fn units_path() -> Seq<char> {
    "/DataSets/DataSet/Units"@
}

pub open spec fn unit_tag() -> Seq<char> {
    "Unit"@
}

pub open spec fn uri_206() -> Seq<char> {
    "http://www.tdwg.org/schemas/abcd/2.06"@
}

pub open spec fn uri_210() -> Seq<char> {
    "http://www.tdwg.org/schemas/abcd/2.1"@
}

/// The parser's abstract state between two events.
#[verifier::ext_equal]
pub struct ParseState {
    /// The schema version seen so far.
    pub version: AbcdVersion,
    /// The current XML path, one `/` before each stripped tag name.
    pub path: Seq<char>,
    /// The raw character data gathered since the last markup.
    pub pending: Seq<char>,
    /// The values of the container being filled.
    pub current: Map<Seq<char>, VatValue>,
    /// The dataset metadata, once `/DataSets/DataSet/Units` was opened.
    pub dataset: Option<Map<Seq<char>, VatValue>>,
    /// One value map per closed `Unit` element, in document order.
    pub units: Seq<Map<Seq<char>, VatValue>>,
}

/// The state before any event.
pub open spec fn init_state() -> ParseState {
    ParseState {
        version: AbcdVersion::Unknown,
        path: Seq::empty(),
        pending: Seq::empty(),
        current: Map::empty(),
        dataset: None,
        units: Seq::empty(),
    }
}

/// The working values after one full text node was read: trimmed, dropped
/// where no field matches the path or a numeric field got no number, and
/// stored under the field's path otherwise.
pub open spec fn flushed_values(
    fields: Seq<AbcdFieldValue>,
    path: Seq<char>,
    current: Map<Seq<char>, VatValue>,
    pending: Seq<char>,
) -> Map<Seq<char>, VatValue> {
    let t = trim_of(pending);
    if t.len() == 0 {
        current
    } else {
        match dict_lookup(fields, path) {
            None => current,
            Some(f) => if f.numeric {
                match canon_num_of(t) {
                    Some(c) => current.insert(f.name, VatValue::Numeric(c)),
                    None => current,
                }
            } else {
                current.insert(f.name, VatValue::Textual(t))
            },
        }
    }
}

/// Close the pending text node.
pub open spec fn flush_state(fields: Seq<AbcdFieldValue>, st: ParseState) -> ParseState {
    ParseState {
        pending: Seq::empty(),
        current: flushed_values(fields, st.path, st.current, st.pending),
        ..st
    }
}

/// The version after scanning a start tag's attribute values: the first
/// value naming a known schema URI decides.
pub open spec fn scan_version(attrs: Seq<Seq<char>>, v: AbcdVersion) -> AbcdVersion
    decreases attrs.len(),
{
    if attrs.len() == 0 {
        v
    } else if attrs.first() == uri_206() {
        AbcdVersion::Version206
    } else if attrs.first() == uri_210() {
        AbcdVersion::Version210
    } else {
        scan_version(attrs.drop_first(), v)
    }
}

/// The state after a start tag.
pub open spec fn open_step(
    fields: Seq<AbcdFieldValue>,
    st0: ParseState,
    name: Seq<char>,
    attrs: Seq<Seq<char>>,
) -> ParseState {
    let st = flush_state(fields, st0);
    let path2 = st.path + seq!['/'] + strip_of(name);
    let version2 = if path2 == datasets_path() {
        scan_version(attrs, st.version)
    } else {
        st.version
    };
    if path2 == units_path() {
        ParseState {
            version: version2,
            path: path2,
            pending: st.pending,
            current: Map::empty(),
            dataset: Some(st.current),
            units: st.units,
        }
    } else {
        ParseState { version: version2, path: path2, ..st }
    }
}

/// The state after an end tag.
pub open spec fn close_step(fields: Seq<AbcdFieldValue>, st0: ParseState, name: Seq<char>) -> ParseState {
    let st = flush_state(fields, st0);
    let stripped = strip_of(name);
    let path2 = if st.path.len() >= stripped.len() + 1 {
        st.path.subrange(0, st.path.len() - stripped.len() - 1)
    } else {
        Seq::empty()
    };
    if path2 == units_path() && stripped == unit_tag() {
        ParseState {
            path: path2,
            current: Map::empty(),
            units: st.units.push(st.current),
            ..st
        }
    } else {
        ParseState { path: path2, ..st }
    }
}

/// The state after one event.
pub open spec fn step(fields: Seq<AbcdFieldValue>, st: ParseState, ev: XmlEventValue) -> ParseState {
    match ev {
        XmlEventValue::Text { content } => ParseState { pending: st.pending + content, ..st },
        XmlEventValue::Ref { name } => ParseState {
            pending: st.pending + seq!['&'] + name + seq![';'],
            ..st
        },
        XmlEventValue::Break => flush_state(fields, st),
        XmlEventValue::Open { name, attrs } => open_step(fields, st, name, attrs),
        XmlEventValue::Close { name } => close_step(fields, st, name),
    }
}

/// The state after a sequence of events.
pub open spec fn run_events(fields: Seq<AbcdFieldValue>, events: Seq<XmlEventValue>) -> ParseState
    decreases events.len(),
{
    if events.len() == 0 {
        init_state()
    } else {
        step(fields, run_events(fields, events.drop_last()), events.last())
    }
}

/// The state after a whole document: every event, and the last text node
/// closed.
pub open spec fn final_state(fields: Seq<AbcdFieldValue>, events: Seq<XmlEventValue>) -> ParseState {
    flush_state(fields, run_events(fields, events))
}

/// The landing page of a parsed document: the text value of the configured
/// landing-page field where the dataset has one, else the caller's
/// proposal.
pub open spec fn landing_page_of(
    dataset: Map<Seq<char>, VatValue>,
    lp_field: Seq<char>,
    proposal: Seq<char>,
) -> Seq<char> {
    if dataset.contains_key(lp_field) {
        match dataset[lp_field] {
            VatValue::Textual(v) => v,
            VatValue::Numeric(_) => proposal,
        }
    } else {
        proposal
    }
}

/// The result of one parsed document: the dataset metadata, its units in
/// document order, and the identifying strings they are filed under.
#[derive(Debug)]
pub struct AbcdResult {
    pub dataset_id: String,
    pub dataset_path: String,
    pub landing_page: String,
    pub provider_name: String,
    pub dataset: ValueMap,
    pub units: Vec<ValueMap>,
}

impl AbcdResult {
    /// An `AbcdResult` from dataset and unit data.
    pub fn new(
        dataset_id: String,
        dataset_path: String,
        landing_page: String,
        provider_name: String,
        dataset_data: ValueMap,
        units_data: Vec<ValueMap>,
    ) -> (r: AbcdResult)
        ensures
            r.dataset_id@ == dataset_id@,
            r.dataset_path@ == dataset_path@,
            r.landing_page@ == landing_page@,
            r.provider_name@ == provider_name@,
            r.dataset@ == dataset_data@,
            r.units.deep_view() == units_data.deep_view(),
    {
        AbcdResult {
            dataset_id,
            dataset_path,
            landing_page,
            provider_name,
            dataset: dataset_data,
            units: units_data,
        }
    }
}

/// The streaming ABCD parser: it folds the document's events into one
/// dataset map and a sequence of unit maps.
#[derive(Debug)]
pub struct AbcdParser {
    abcd_version: AbcdVersion,
    xml_tag_path: Vec<char>,
    values: ValueMap,
}

fn scan_version_exec(
    attrs: &Vec<String>,
    v: AbcdVersion,
    uri206: &String,
    uri210: &String,
) -> (r: AbcdVersion)
    requires
        uri206@ == uri_206(),
        uri210@ == uri_210(),
    ensures
        r == scan_version(attrs.deep_view(), v),
{
    let n = attrs.len();
    let mut k: usize = 0;
    proof {
        assert(attrs.deep_view().skip(0) =~= attrs.deep_view());
    }
    while k < n
        invariant
            k <= n,
            n == attrs@.len(),
            uri206@ == uri_206(),
            uri210@ == uri_210(),
            scan_version(attrs.deep_view(), v) == scan_version(
                attrs.deep_view().skip(k as int),
                v,
            ),
        decreases n - k,
    {
        let ghost rest = attrs.deep_view().skip(k as int);
        proof {
            assert(rest.len() > 0);
            assert(rest.first() == attrs.deep_view()[k as int]);
            assert(rest.drop_first() =~= attrs.deep_view().skip(k + 1));
        }
        if attrs[k] == *uri206 {
            return AbcdVersion::Version206;
        }
        if attrs[k] == *uri210 {
            return AbcdVersion::Version210;
        }
        k += 1;
    }
    proof {
        assert(attrs.deep_view().skip(n as int) =~= Seq::<Seq<char>>::empty());
    }
    v
}

/// Close the pending text node against the working value map.
fn flush_text(
    abcd_fields: &AbcdFields,
    path: &Vec<char>,
    values: &mut ValueMap,
    pending: &mut String,
)
    requires
        abcd_fields.wf(),
    ensures
        final(values)@ == flushed_values(abcd_fields@, path@, old(values)@, old(pending)@),
        final(pending)@ == Seq::<char>::empty(),
{
    let t = trim_text(pending.as_str());
    *pending = String::new();
    if t.as_str().unicode_len() == 0 {
        return ;
    }
    match abcd_fields.value_of(path) {
        None => {},
        Some(field) => {
            if field.numeric {
                match canonical_number(t.as_str()) {
                    Some(c) => values.insert(field.name.clone(), VatType::Numeric(c)),
                    None => {},
                }
            } else {
                values.insert(field.name.clone(), VatType::Textual(t));
            }
        },
    }
}

impl AbcdParser {
    /// A fresh parser with empty scratch state.
    pub fn new() -> (r: AbcdParser)
        ensures
            r.is_clear(),
    {
        AbcdParser {
            abcd_version: AbcdVersion::Unknown,
            xml_tag_path: Vec::new(),
            values: ValueMap::new(),
        }
    }

    /// Whether the scratch state is empty.
    pub closed spec fn is_clear(&self) -> bool {
        &&& self.xml_tag_path@ == Seq::<char>::empty()
        &&& self.values@ == Map::<Seq<char>, VatValue>::empty()
    }

    /// Parse one ABCD document. The result holds the dataset metadata map
    /// and the unit maps that the document's events denote, or says that
    /// the document is malformed or that no dataset metadata was found.
    pub fn parse(
        &mut self,
        abcd_settings: &AbcdSettings,
        abcd_fields: &AbcdFields,
        dataset_id: &str,
        dataset_path: &str,
        landing_page_proposal: &str,
        provider_name: &str,
        xml_bytes: &[u8],
    ) -> (r: Result<AbcdResult, AbcdError>)
        requires
            abcd_fields.wf(),
        ensures
            final(self).is_clear(),
            match xml_events_of(xml_bytes@) {
                None => r == Err::<AbcdResult, AbcdError>(AbcdError::MalformedXml),
                Some(events) => {
                    let st = final_state(abcd_fields@, events);
                    match st.dataset {
                        None => r == Err::<AbcdResult, AbcdError>(AbcdError::NoDatasetMetadata),
                        Some(d) => r matches Ok(res) && {
                            &&& res.dataset_id@ == dataset_id@
                            &&& res.dataset_path@ == dataset_path@
                            &&& res.provider_name@ == provider_name@
                            &&& res.dataset@ == d
                            &&& res.units.deep_view() == st.units
                            &&& res.landing_page@ == landing_page_of(
                                d,
                                abcd_settings.landing_page_field@,
                                landing_page_proposal@,
                            )
                        },
                    }
                },
            },
    {
        self.xml_tag_path.clear();
        self.values = ValueMap::new();
        let events = match read_xml_events(xml_bytes) {
            None => {
                return Err(AbcdError::MalformedXml);
            },
            Some(v) => v,
        };
        let uri206: String = "http://www.tdwg.org/schemas/abcd/2.06".to_owned();
        let uri210: String = "http://www.tdwg.org/schemas/abcd/2.1".to_owned();
        let mut pending: String = String::new();
        let mut dataset_data: Option<ValueMap> = None;
        let mut units: Vec<ValueMap> = Vec::new();
        let mut version = AbcdVersion::Unknown;
        let ghost fseq = abcd_fields@;
        let ghost evs = events.deep_view();
        let n = events.len();
        let mut i: usize = 0;
        proof {
            assert(evs.subrange(0, 0) =~= Seq::<XmlEventValue>::empty());
        }
        while i < n
            invariant
                i <= n,
                n == events@.len(),
                evs == events.deep_view(),
                abcd_fields.wf(),
                fseq == abcd_fields@,
                uri206@ == uri_206(),
                uri210@ == uri_210(),
                ({
                    let st = run_events(fseq, evs.subrange(0, i as int));
                    &&& self.xml_tag_path@ == st.path
                    &&& pending@ == st.pending
                    &&& self.values@ == st.current
                    &&& version == st.version
                    &&& match (dataset_data, st.dataset) {
                        (Some(m), Some(d)) => m@ == d,
                        (None, None) => true,
                        _ => false,
                    }
                    &&& units.deep_view() == st.units
                }),
            decreases n - i,
        {
            let ghost st_pre = run_events(fseq, evs.subrange(0, i as int));
            proof {
                let cur = evs.subrange(0, i + 1);
                assert(cur.drop_last() =~= evs.subrange(0, i as int));
                assert(cur.last() == evs[i as int]);
                assert(run_events(fseq, cur) == step(fseq, st_pre, evs[i as int]));
            }
            match &events[i] {
                XmlEvent::Text(content) => {
                    pending.append(content.as_str());
                },
                XmlEvent::Ref(name) => {
                    proof {
                        reveal_strlit("&");
                        reveal_strlit(";");
                        assert("&"@ =~= seq!['&']);
                        assert(";"@ =~= seq![';']);
                    }
                    pending.append("&");
                    pending.append(name.as_str());
                    pending.append(";");
                    proof {
                        assert(pending@ =~= st_pre.pending + seq!['&'] + name@ + seq![';']);
                    }
                },
                XmlEvent::Break => {
                    flush_text(abcd_fields, &self.xml_tag_path, &mut self.values, &mut pending);
                },
                XmlEvent::Open(name, attrs) => {
                    flush_text(abcd_fields, &self.xml_tag_path, &mut self.values, &mut pending);
                    self.xml_tag_path.push('/');
                    let stripped = strip_tag(name.as_str());
                    extend_vec_chars(&mut self.xml_tag_path, &stripped);
                    proof {
                        let st = flush_state(fseq, st_pre);
                        assert(self.xml_tag_path@ =~= st.path + seq!['/'] + strip_of(name@));
                    }
                    if vec_char_eq_str(&self.xml_tag_path, "/DataSets") {
                        version = scan_version_exec(attrs, version, &uri206, &uri210);
                    }
                    if vec_char_eq_str(&self.xml_tag_path, "/DataSets/DataSet/Units") {
                        dataset_data = Some(self.values.take());
                    }
                },
                XmlEvent::Close(name) => {
                    flush_text(abcd_fields, &self.xml_tag_path, &mut self.values, &mut pending);
                    let stripped = strip_tag(name.as_str());
                    if stripped.len() < self.xml_tag_path.len() {
                        let keep = self.xml_tag_path.len() - stripped.len() - 1;
                        self.xml_tag_path.truncate(keep);
                        proof {
                            let st = flush_state(fseq, st_pre);
                            assert(self.xml_tag_path@ =~= st.path.subrange(
                                0,
                                st.path.len() - strip_of(name@).len() - 1,
                            ));
                        }
                    } else {
                        self.xml_tag_path.clear();
                    }
                    if vec_char_eq_str(&self.xml_tag_path, "/DataSets/DataSet/Units")
                        && vec_char_eq_str(&stripped, "Unit") {
                        let unit_map = self.values.take();
                        let ghost old_units = units.deep_view();
                        units.push(unit_map);
                        proof {
                            assert(units.deep_view() =~= old_units.push(
                                units@[units@.len() - 1].deep_view(),
                            ));
                        }
                    }
                },
            }
            i += 1;
        }
        proof {
            assert(evs.subrange(0, n as int) =~= evs);
        }
        flush_text(abcd_fields, &self.xml_tag_path, &mut self.values, &mut pending);
        self.xml_tag_path.clear();
        self.values = ValueMap::new();
        self.abcd_version = version;
        match dataset_data {
            Some(dataset_map) => {
                let landing_page: String = match dataset_map.get(&abcd_settings.landing_page_field) {
                    Some(v) => match v {
                        VatType::Textual(s) => s.clone(),
                        VatType::Numeric(_) => landing_page_proposal.to_owned(),
                    },
                    None => landing_page_proposal.to_owned(),
                };
                Ok(
                    AbcdResult::new(
                        dataset_id.to_owned(),
                        dataset_path.to_owned(),
                        landing_page,
                        provider_name.to_owned(),
                        dataset_map,
                        units,
                    ),
                )
            },
            None => Err(AbcdError::NoDatasetMetadata),
        }
    }
}

/// Re-parsing the same document yields identical maps: any two results
/// that the parser's contract admits for the same dictionary, events and
/// landing-page inputs carry the same dataset map, unit maps and landing
/// page.
pub proof fn lemma_reparse_identical(
    fields: Seq<AbcdFieldValue>,
    events: Seq<XmlEventValue>,
    lp_field: Seq<char>,
    proposal: Seq<char>,
    d1: Map<Seq<char>, VatValue>,
    u1: Seq<Map<Seq<char>, VatValue>>,
    l1: Seq<char>,
    d2: Map<Seq<char>, VatValue>,
    u2: Seq<Map<Seq<char>, VatValue>>,
    l2: Seq<char>,
)
    requires
        final_state(fields, events).dataset == Some(d1),
        u1 == final_state(fields, events).units,
        l1 == landing_page_of(d1, lp_field, proposal),
        final_state(fields, events).dataset == Some(d2),
        u2 == final_state(fields, events).units,
        l2 == landing_page_of(d2, lp_field, proposal),
    ensures
        d1 == d2,
        u1 == u2,
        l1 == l2,
{
}

/// A document that never opens `/DataSets/DataSet/Units` captures no
/// dataset metadata, so parsing it fails with `NoDatasetMetadata`.
pub proof fn lemma_no_units_open_no_metadata(fields: Seq<AbcdFieldValue>, events: Seq<XmlEventValue>)
    requires
        forall|i: int|
            0 <= i < events.len() ==> !((#[trigger] events[i]) is Open && run_events(
                fields,
                events.subrange(0, i + 1),
            ).path == units_path()),
    ensures
        final_state(fields, events).dataset is None,
    decreases events.len(),
{
    if events.len() == 0 {
    } else {
        let pre = events.drop_last();
        assert forall|i: int|
            0 <= i < pre.len() implies !((#[trigger] pre[i]) is Open && run_events(
            fields,
            pre.subrange(0, i + 1),
        ).path == units_path()) by {
            assert(pre.subrange(0, i + 1) =~= events.subrange(0, i + 1));
            assert(pre[i] == events[i]);
        };
        lemma_no_units_open_no_metadata(fields, pre);
        let st = run_events(fields, pre);
        assert(st.dataset is None);
        let last = events.last();
        assert(events.subrange(0, events.len() as int) =~= events);
        match last {
            XmlEventValue::Open { name, attrs } => {
                assert(!(run_events(fields, events).path == units_path()));
                assert(run_events(fields, events).dataset is None);
            },
            _ => {
                assert(run_events(fields, events).dataset is None);
            },
        }
    }
}

/// A namespace prefix on a tag changes nothing: the parser steps on a
/// prefixed tag exactly as it steps on the bare tag.
pub proof fn lemma_prefixed_tag_same_step(
    fields: Seq<AbcdFieldValue>,
    st: ParseState,
    prefix: Seq<char>,
    name: Seq<char>,
    attrs: Seq<Seq<char>>,
)
    requires
        !crate::xml_events::has_colon(prefix),
        !crate::xml_events::has_colon(name),
    ensures
        step(
            fields,
            st,
            XmlEventValue::Open { name: prefix + seq![':'] + name, attrs },
        ) == step(fields, st, XmlEventValue::Open { name, attrs }),
        step(fields, st, XmlEventValue::Close { name: prefix + seq![':'] + name }) == step(
            fields,
            st,
            XmlEventValue::Close { name },
        ),
{
    crate::xml_events::lemma_strip_prefixed(prefix, name);
}

/// A numeric field whose text is not a number is left out of the record:
/// it is not stored as anything, let alone as zero.
pub proof fn lemma_non_numeric_text_dropped(
    fields: Seq<AbcdFieldValue>,
    path: Seq<char>,
    current: Map<Seq<char>, VatValue>,
    pending: Seq<char>,
)
    requires
        dict_lookup(fields, path) matches Some(f) && f.numeric,
        canon_num_of(trim_of(pending)) is None,
    ensures
        flushed_values(fields, path, current, pending) == current,
{
}

} // verus!

use vstd::prelude::*;

use vstd::string::StrSliceExecFns;
use vstd::string::StringExecFns;

use crate::abcd_fields::AbcdFields;
use crate::abcd_parser::AbcdError;
use crate::abcd_parser::AbcdParser;
use crate::abcd_parser::final_state;
use crate::abcd_parser::landing_page_of;
use crate::database_sink::CopyCommand;
use crate::database_sink::DatabaseSink;
use crate::database_sink::dataset_copy_command;
use crate::database_sink::unit_copy_command;
use crate::settings::AbcdSettings;
use crate::settings::DatabaseSettings;
use crate::settings::TerminologyServiceSettings;
use crate::tsv::csv_record;
use crate::tsv::csv_record_of;
use crate::value_map::ValueMap;
use crate::vat_type::VatValue;
use crate::vat_type::vat_text;
use crate::xml_events::xml_events_of;

verus! {

/// What one run of the program does: ingest everything, or turn one
/// archive into comma-separated rows.
#[derive(Debug)]
pub enum Cmd {
    All,
    FileToCsv(String),
}

/// The landing page proposed for a dataset: the configured base with the
/// archive url appended.
pub fn propose_landing_page(
    terminology_service_settings: &TerminologyServiceSettings,
    dataset_url: &str,
) -> (r: String)
    ensures
        r@ == terminology_service_settings.landingpage_url@ + "?archive="@ + dataset_url@,
{
    let mut s = terminology_service_settings.landingpage_url.clone();
    s.append("?archive=");
    s.append(dataset_url);
    s
}

/// Whether a character survives in an archive file name.
pub open spec fn keeps_char(c: char) -> bool {
    ('a' <= c && c <= 'z') || ('A' <= c && c <= 'Z') || c == '-'
}

/// The file name an external id is cached under: every character outside
/// letters and `-` becomes `_`, and `.zip` follows.
pub open spec fn archive_file_name_of(id: Seq<char>) -> Seq<char> {
    Seq::new(id.len(), |i: int| if keeps_char(id[i]) { id[i] } else { '_' }) + ".zip"@
}

fn keeps_char_exec(c: char) -> (r: bool)
    ensures
        r == keeps_char(c),
{
    ('a' <= c && c <= 'z') || ('A' <= c && c <= 'Z') || c == '-'
}

/// The file name an external id is cached under.
pub fn archive_file_name(id: &str) -> (r: String)
    ensures
        r@ == archive_file_name_of(id@),
{
    let n = id.unicode_len();
    let mut s = String::new();
    let mut i: usize = 0;
    while i < n
        invariant
            i <= n,
            n == id@.len(),
            s@ == Seq::new(i as nat, |k: int| if keeps_char(id@[k]) { id@[k] } else { '_' }),
        decreases n - i,
    {
        if keeps_char_exec(id.get_char(i)) {
            let piece = id.substring_char(i, i + 1);
            s.append(piece);
        } else {
            s.append("_");
            proof {
                reveal_strlit("_");
            }
        }
        i += 1;
        proof {
            assert(s@ =~= Seq::new(i as nat, |k: int| if keeps_char(id@[k]) { id@[k] } else { '_' }));
        }
    }
    s.append(".zip");
    proof {
        assert(s@ =~= archive_file_name_of(id@));
    }
    s
}

/// Whether an archive is cached after processing: every member inserted
/// without error and the archive was not empty.
pub fn should_cache_archive(all_inserts_successful: bool, archive_len: usize) -> (r: bool)
    ensures
        r == (all_inserts_successful && archive_len > 0),
{
    all_inserts_successful && archive_len > 0
}

/// One member of one archive, end to end: parse the document and turn the
/// result into COPY commands; a document that fails to parse changes
/// nothing.
pub fn process_member(
    parser: &mut AbcdParser,
    sink: &mut DatabaseSink,
    abcd_settings: &AbcdSettings,
    database_settings: &DatabaseSettings,
    abcd_fields: &AbcdFields,
    dataset_id: &str,
    dataset_path: &str,
    landing_page_proposal: &str,
    provider_name: &str,
    xml_bytes: &[u8],
) -> (r: Result<Vec<CopyCommand>, AbcdError>)
    requires
        abcd_fields.wf(),
        old(sink).wf(),
        old(sink).key_count() + 2 <= u32::MAX,
    ensures
        final(parser).is_clear(),
        final(sink).wf(),
        final(sink).spec_dataset_fields() == old(sink).spec_dataset_fields(),
        final(sink).spec_unit_fields() == old(sink).spec_unit_fields(),
        match xml_events_of(xml_bytes@) {
            None => r matches Err(e) && e == AbcdError::MalformedXml
                && final(sink).keys() == old(sink).keys()
                && final(sink).key_count() == old(sink).key_count(),
            Some(events) => {
                let st = final_state(abcd_fields@, events);
                match st.dataset {
                    None => r matches Err(e) && e == AbcdError::NoDatasetMetadata
                        && final(sink).keys() == old(sink).keys()
                        && final(sink).key_count() == old(sink).key_count(),
                    Some(d) => {
                        let lp = landing_page_of(
                            d,
                            abcd_settings.landing_page_field@,
                            landing_page_proposal@,
                        );
                        r matches Ok(cmds) && (if old(sink).keys().contains_key(dataset_id@) {
                            let key = old(sink).keys()[dataset_id@];
                            &&& final(sink).keys() == old(sink).keys()
                            &&& final(sink).key_count() == old(sink).key_count()
                            &&& cmds.deep_view() =~~= seq![
                                unit_copy_command(
                                    *database_settings,
                                    final(sink).spec_unit_fields(),
                                    key as nat,
                                    st.units,
                                ),
                            ]
                        } else {
                            let key = (old(sink).key_count() + 1) as u32;
                            &&& final(sink).keys() == old(sink).keys().insert(dataset_id@, key)
                            &&& final(sink).key_count() == old(sink).key_count() + 1
                            &&& cmds.deep_view() =~~= seq![
                                dataset_copy_command(
                                    *database_settings,
                                    final(sink).spec_dataset_fields(),
                                    key as nat,
                                    dataset_id@,
                                    dataset_path@,
                                    lp,
                                    provider_name@,
                                    d,
                                ),
                                unit_copy_command(
                                    *database_settings,
                                    final(sink).spec_unit_fields(),
                                    key as nat,
                                    st.units,
                                ),
                            ]
                        })
                    },
                }
            },
        },
{
    let abcd_data = match parser.parse(
        abcd_settings,
        abcd_fields,
        dataset_id,
        dataset_path,
        landing_page_proposal,
        provider_name,
        xml_bytes,
    ) {
        Ok(data) => data,
        Err(e) => {
            return Err(e);
        },
    };
    let commands = sink.insert_dataset(database_settings, &abcd_data);
    Ok(commands)
}

/// The header line of the comma-separated rendering: every field path of
/// the dictionary, in iteration order.
pub open spec fn csv_header_of(dict: Seq<crate::abcd_fields::AbcdFieldValue>) -> Seq<char> {
    csv_record_of(dict.map(|i: int, f: crate::abcd_fields::AbcdFieldValue| f.name), ',')
}

/// The header line of the comma-separated rendering.
pub fn csv_header(abcd_fields: &AbcdFields) -> (r: String)
    ensures
        r@ == csv_header_of(abcd_fields@),
{
    let n = abcd_fields.len();
    let mut names: Vec<String> = Vec::new();
    let mut i: usize = 0;
    while i < n
        invariant
            i <= n,
            n == abcd_fields@.len(),
            names@.len() == i,
            forall|k: int|
                0 <= k < i ==> (#[trigger] names@[k])@ == abcd_fields@[k].name,
        decreases n - i,
    {
        names.push(abcd_fields.field_at(i).name.clone());
        i += 1;
    }
    proof {
        assert(names.deep_view() =~~= abcd_fields@.map(
            |i: int, f: crate::abcd_fields::AbcdFieldValue| f.name,
        ));
    }
    csv_record(&names, ',')
}

/// One comma-separated row per unit of a parsed result: each dictionary
/// field's rendered value, or nothing where the unit lacks it.
pub open spec fn csv_unit_row_of(
    dict: Seq<crate::abcd_fields::AbcdFieldValue>,
    unit: Map<Seq<char>, VatValue>,
) -> Seq<char> {
    csv_record_of(
        dict.map(
            |i: int, f: crate::abcd_fields::AbcdFieldValue|
                if unit.contains_key(f.name) {
                    vat_text(unit[f.name])
                } else {
                    Seq::<char>::empty()
                },
        ),
        ',',
    )
}

/// The comma-separated rows of a run of units.
pub open spec fn csv_unit_rows_of(
    dict: Seq<crate::abcd_fields::AbcdFieldValue>,
    units: Seq<Map<Seq<char>, VatValue>>,
) -> Seq<char>
    decreases units.len(),
{
    if units.len() == 0 {
        Seq::empty()
    } else {
        csv_unit_rows_of(dict, units.drop_last()) + csv_unit_row_of(dict, units.last())
    }
}

/// The comma-separated rows of a parsed result's units.
pub fn units_to_csv(abcd_fields: &AbcdFields, units: &Vec<ValueMap>) -> (r: String)
    ensures
        r@ == csv_unit_rows_of(abcd_fields@, units.deep_view()),
{
    let m = units.len();
    let mut out = String::new();
    let mut u: usize = 0;
    proof {
        assert(units.deep_view().subrange(0, 0) =~= Seq::<Map<Seq<char>, VatValue>>::empty());
    }
    while u < m
        invariant
            u <= m,
            m == units@.len(),
            out@ == csv_unit_rows_of(abcd_fields@, units.deep_view().subrange(0, u as int)),
        decreases m - u,
    {
        let unit = &units[u];
        let n = abcd_fields.len();
        let mut fields: Vec<String> = Vec::new();
        let mut i: usize = 0;
        while i < n
            invariant
                i <= n,
                n == abcd_fields@.len(),
                u < units@.len(),
                unit == &units@[u as int],
                fields@.len() == i,
                forall|k: int|
                    0 <= k < i ==> (#[trigger] fields@[k])@ == (if units@[u as int]@.contains_key(
                        abcd_fields@[k].name,
                    ) {
                        vat_text(units@[u as int]@[abcd_fields@[k].name])
                    } else {
                        Seq::<char>::empty()
                    }),
            decreases n - i,
        {
            let field = abcd_fields.field_at(i);
            match unit.get(&field.name) {
                Some(value) => fields.push(value.render()),
                None => fields.push(String::new()),
            }
            i += 1;
        }
        let ghost mview = units.deep_view()[u as int];
        proof {
            assert(mview == units@[u as int].deep_view());
            assert(fields.deep_view() =~~= abcd_fields@.map(
                |i: int, f: crate::abcd_fields::AbcdFieldValue|
                    if mview.contains_key(f.name) {
                        vat_text(mview[f.name])
                    } else {
                        Seq::<char>::empty()
                    },
            ));
        }
        let row = csv_record(&fields, ',');
        out.append(row.as_str());
        u += 1;
        proof {
            let pre = units.deep_view().subrange(0, u - 1);
            let cur = units.deep_view().subrange(0, u as int);
            assert(cur.drop_last() =~= pre);
            assert(cur.last() == units.deep_view()[u - 1]);
        }
    }
    proof {
        assert(units.deep_view().subrange(0, m as int) =~= units.deep_view());
    }
    out
}

} // verus!

use vstd::prelude::*;

use vstd::string::StringExecFns;

use crate::abcd_fields::AbcdFieldValue;
use crate::abcd_fields::AbcdFields;
use crate::abcd_fields::dict_lookup;
use crate::abcd_parser::AbcdResult;
use crate::field::Field;
use crate::field::FieldValue;
use crate::field::column_hash_of;
use crate::settings::DatabaseSettings;
use crate::strutil::dec_of;
use crate::strutil::join_strings;
use crate::strutil::join_with;
use crate::strutil::u32_to_dec;
use crate::surrogate_key::SurrogateKey;
use crate::surrogate_key::SurrogateKeyType;
use crate::tsv::csv_record;
use crate::tsv::csv_record_of;
use crate::vat_type::VatValue;
use crate::vat_type::vat_text;

verus! {

/// An inconsistency between the field dictionary and the columns the
/// loader is about to create.
#[derive(Debug)]
pub enum DatabaseSinkError {
    /// A dataset-level column has no entry in the dictionary.
    InconsistentDatasetColumns(String),
    /// A unit-level column has no entry in the dictionary.
    InconsistentUnitColumns(String),
}

/// The ABCD path whose column feeds the listing view's title.
pub open spec fn title_path() -> Seq<char> {
    "/DataSets/DataSet/Metadata/Description/Representation/Title"@
}

/// The ABCD path of the decimal latitude of a unit.
pub open spec fn latitude_path() -> Seq<char> {
    "/DataSets/DataSet/Units/Unit/Gathering/SiteCoordinateSets/SiteCoordinates/CoordinatesLatLong/LatitudeDecimal"@
}

/// The ABCD path of the decimal longitude of a unit.
pub open spec fn longitude_path() -> Seq<char> {
    "/DataSets/DataSet/Units/Unit/Gathering/SiteCoordinateSets/SiteCoordinates/CoordinatesLatLong/LongitudeDecimal"@
}

/// The dictionary's dataset-level fields, in iteration order.
pub open spec fn global_fields(dict: Seq<AbcdFieldValue>) -> Seq<AbcdFieldValue>
    decreases dict.len(),
{
    if dict.len() == 0 {
        Seq::empty()
    } else {
        global_fields(dict.drop_last()) + (if dict.last().global_field {
            seq![dict.last()]
        } else {
            Seq::empty()
        })
    }
}

/// The dictionary's unit-level fields, in iteration order.
pub open spec fn nonglobal_fields(dict: Seq<AbcdFieldValue>) -> Seq<AbcdFieldValue>
    decreases dict.len(),
{
    if dict.len() == 0 {
        Seq::empty()
    } else {
        nonglobal_fields(dict.drop_last()) + (if dict.last().global_field {
            Seq::empty()
        } else {
            seq![dict.last()]
        })
    }
}

/// The schema fields for a run of dictionary entries: each path with its
/// column identifier.
pub open spec fn fields_for(part: Seq<AbcdFieldValue>) -> Seq<FieldValue> {
    part.map(|i: int, f: AbcdFieldValue| FieldValue { name: f.name, hash: column_hash_of(f.name) })
}

/// Every dataset-level field of the dictionary stands in the dictionary.
proof fn lemma_global_fields_member(dict: Seq<AbcdFieldValue>, j: int)
    requires
        0 <= j < global_fields(dict).len(),
    ensures
        exists|i: int| 0 <= i < dict.len() && global_fields(dict)[j] == dict[i],
    decreases dict.len(),
{
    if dict.len() > 0 {
        if j < global_fields(dict.drop_last()).len() {
            lemma_global_fields_member(dict.drop_last(), j);
            let i = choose|i: int|
                0 <= i < dict.drop_last().len() && global_fields(dict.drop_last())[j]
                    == dict.drop_last()[i];
            assert(global_fields(dict)[j] == dict[i]);
        } else {
            assert(global_fields(dict)[j] == dict[dict.len() - 1]);
        }
    }
}

/// Every unit-level field of the dictionary stands in the dictionary.
proof fn lemma_nonglobal_fields_member(dict: Seq<AbcdFieldValue>, j: int)
    requires
        0 <= j < nonglobal_fields(dict).len(),
    ensures
        exists|i: int| 0 <= i < dict.len() && nonglobal_fields(dict)[j] == dict[i],
    decreases dict.len(),
{
    if dict.len() > 0 {
        if j < nonglobal_fields(dict.drop_last()).len() {
            lemma_nonglobal_fields_member(dict.drop_last(), j);
            let i = choose|i: int|
                0 <= i < dict.drop_last().len() && nonglobal_fields(dict.drop_last())[j]
                    == dict.drop_last()[i];
            assert(nonglobal_fields(dict)[j] == dict[i]);
        } else {
            assert(nonglobal_fields(dict)[j] == dict[dict.len() - 1]);
        }
    }
}

/// The column type for a field: numeric fields get double precision.
pub open spec fn sql_type(numeric: bool) -> Seq<char> {
    if numeric {
        "double precision"@
    } else {
        "text"@
    }
}

/// Whether the dictionary holds a path as numeric.
pub open spec fn lookup_numeric(dict: Seq<AbcdFieldValue>, name: Seq<char>) -> bool {
    match dict_lookup(dict, name) {
        Some(f) => f.numeric,
        None => false,
    }
}

/// One hashed column definition of a temporary table.
pub open spec fn hash_column_def(dict: Seq<AbcdFieldValue>, f: FieldValue) -> Seq<char> {
    "\""@ + f.hash + "\" "@ + sql_type(lookup_numeric(dict, f.name)) + " "@
}

/// The tabular options every COPY statement carries.
pub open spec fn copy_options() -> Seq<char> {
    "DELIMITER '\t', NULL '', QUOTE '\"', ESCAPE '\"', FORMAT CSV"@
}

/// The COPY statement for a table and its column list.
pub open spec fn copy_statement_for(
    s: DatabaseSettings,
    table: Seq<char>,
    columns: Seq<Seq<char>>,
) -> Seq<char> {
    "COPY "@ + s.schema@ + "."@ + table + "(\""@ + join_with(columns, "\",\""@) + "\") FROM STDIN WITH ("@
        + copy_options() + ")"@
}

/// The columns of the dataset temporary table, in COPY order.
pub open spec fn dataset_columns(s: DatabaseSettings, fields: Seq<FieldValue>) -> Seq<Seq<char>> {
    seq![
        s.surrogate_key_column@,
        s.dataset_id_column@,
        s.dataset_path_column@,
        s.dataset_landing_page_column@,
        s.dataset_provider_column@,
    ] + fields.map(|i: int, f: FieldValue| f.hash)
}

/// The columns of the unit temporary table, in COPY order.
pub open spec fn unit_columns(s: DatabaseSettings, fields: Seq<FieldValue>) -> Seq<Seq<char>> {
    seq![s.surrogate_key_column@] + fields.map(|i: int, f: FieldValue| f.hash) + seq!["geom"@]
}

/// The rendering a value map gives a field: its value's text, or nothing.
pub open spec fn rendered_value(m: Map<Seq<char>, VatValue>, name: Seq<char>) -> Seq<char> {
    if m.contains_key(name) {
        vat_text(m[name])
    } else {
        Seq::empty()
    }
}

/// Whether a field list carries a path.
pub open spec fn contains_name(fields: Seq<FieldValue>, name: Seq<char>) -> bool {
    exists|i: int| 0 <= i < fields.len() && fields[i].name == name
}

/// The `geom` column of one unit row: a well-known-text point where both
/// coordinate fields are listed and present, empty otherwise.
pub open spec fn geom_of(fields: Seq<FieldValue>, m: Map<Seq<char>, VatValue>) -> Seq<char> {
    if contains_name(fields, longitude_path()) && contains_name(fields, latitude_path())
        && m.contains_key(longitude_path()) && m.contains_key(latitude_path()) {
        "POINT("@ + vat_text(m[longitude_path()]) + " "@ + vat_text(m[latitude_path()]) + ")"@
    } else {
        Seq::empty()
    }
}

/// The fields of one dataset row, in COPY order.
pub open spec fn dataset_row_fields(
    key: nat,
    dataset_id: Seq<char>,
    dataset_path: Seq<char>,
    landing_page: Seq<char>,
    provider_name: Seq<char>,
    fields: Seq<FieldValue>,
    m: Map<Seq<char>, VatValue>,
) -> Seq<Seq<char>> {
    seq![dec_of(key), dataset_id, dataset_path, landing_page, provider_name] + fields.map(
        |i: int, f: FieldValue| rendered_value(m, f.name),
    )
}

/// The fields of one unit row, in COPY order.
pub open spec fn unit_row_fields(
    key: nat,
    fields: Seq<FieldValue>,
    m: Map<Seq<char>, VatValue>,
) -> Seq<Seq<char>> {
    seq![dec_of(key)] + fields.map(|i: int, f: FieldValue| rendered_value(m, f.name)) + seq![
        geom_of(fields, m),
    ]
}

/// The COPY payload for a run of unit rows.
pub open spec fn units_payload(
    key: nat,
    fields: Seq<FieldValue>,
    units: Seq<Map<Seq<char>, VatValue>>,
) -> Seq<char>
    decreases units.len(),
{
    if units.len() == 0 {
        Seq::empty()
    } else {
        units_payload(key, fields, units.drop_last()) + csv_record_of(
            unit_row_fields(key, fields, units.last()),
            '\t',
        )
    }
}

/// The COPY command carrying one dataset row.
pub open spec fn dataset_copy_command(
    s: DatabaseSettings,
    fields: Seq<FieldValue>,
    key: nat,
    dataset_id: Seq<char>,
    dataset_path: Seq<char>,
    landing_page: Seq<char>,
    provider_name: Seq<char>,
    dataset: Map<Seq<char>, VatValue>,
) -> CopyCommandValue {
    CopyCommandValue {
        statement: copy_statement_for(s, s.temp_dataset_table@, dataset_columns(s, fields)),
        payload: csv_record_of(
            dataset_row_fields(
                key,
                dataset_id,
                dataset_path,
                landing_page,
                provider_name,
                fields,
                dataset,
            ),
            '\t',
        ),
    }
}

/// The COPY command carrying a run of unit rows.
pub open spec fn unit_copy_command(
    s: DatabaseSettings,
    fields: Seq<FieldValue>,
    key: nat,
    units: Seq<Map<Seq<char>, VatValue>>,
) -> CopyCommandValue {
    CopyCommandValue {
        statement: copy_statement_for(s, s.temp_unit_table@, unit_columns(s, fields)),
        payload: units_payload(key, fields, units),
    }
}

/// Spec-level image of a COPY command.
#[verifier::ext_equal]
pub struct CopyCommandValue {
    pub statement: Seq<char>,
    pub payload: Seq<char>,
}

/// One COPY command for the target store: the statement and the tabular
/// payload fed to it.
#[derive(Debug)]
pub struct CopyCommand {
    pub statement: String,
    pub payload: String,
}

impl DeepView for CopyCommand {
    type V = CopyCommandValue;

    open spec fn deep_view(&self) -> CopyCommandValue {
        CopyCommandValue { statement: self.statement@, payload: self.payload@ }
    }
}

/// The relational loader: it derives the schema fields from the dictionary
/// and turns parsed results into COPY commands, deduplicating datasets by
/// their external id.
#[derive(Debug)]
pub struct DatabaseSink {
    dataset_fields: Vec<Field>,
    unit_fields: Vec<Field>,
    surrogate_key: SurrogateKey,
}

impl DatabaseSink {
    /// The dataset-level schema fields, in iteration order.
    pub closed spec fn spec_dataset_fields(&self) -> Seq<FieldValue> {
        self.dataset_fields.deep_view()
    }

    /// The unit-level schema fields, in iteration order.
    pub closed spec fn spec_unit_fields(&self) -> Seq<FieldValue> {
        self.unit_fields.deep_view()
    }

    /// The surrogate keys assigned so far.
    pub closed spec fn keys(&self) -> Map<Seq<char>, u32> {
        self.surrogate_key@
    }

    /// How many surrogate keys were assigned.
    pub closed spec fn key_count(&self) -> nat {
        self.surrogate_key.key_count()
    }

    /// The loader's invariant.
    pub closed spec fn wf(&self) -> bool {
        self.surrogate_key.wf()
    }

    /// How many surrogate keys were assigned so far.
    pub fn assigned_keys(&self) -> (r: usize)
        ensures
            r == self.key_count(),
    {
        self.surrogate_key.assigned()
    }

    /// A loader for a dictionary: its dataset and unit fields are the
    /// dictionary's dataset- and unit-level entries, and no key was handed
    /// out yet.
    pub fn new(database_settings: &DatabaseSettings, abcd_fields: &AbcdFields) -> (r: DatabaseSink)
        requires
            abcd_fields.wf(),
        ensures
            r.wf(),
            r.key_count() == 0,
            r.keys() == Map::<Seq<char>, u32>::empty(),
            r.spec_dataset_fields() == fields_for(global_fields(abcd_fields@)),
            r.spec_unit_fields() == fields_for(nonglobal_fields(abcd_fields@)),
    {
        let (dataset_fields, unit_fields) = Self::create_lists_of_dataset_and_unit_fields(
            abcd_fields,
        );
        DatabaseSink { dataset_fields, unit_fields, surrogate_key: SurrogateKey::new() }
    }

    /// Split the dictionary into dataset-level and unit-level schema
    /// fields.
    fn create_lists_of_dataset_and_unit_fields(abcd_fields: &AbcdFields) -> (r: (
        Vec<Field>,
        Vec<Field>,
    ))
        requires
            abcd_fields.wf(),
        ensures
            r.0.deep_view() == fields_for(global_fields(abcd_fields@)),
            r.1.deep_view() == fields_for(nonglobal_fields(abcd_fields@)),
    {
        let mut dataset_fields: Vec<Field> = Vec::new();
        let mut unit_fields: Vec<Field> = Vec::new();
        let n = abcd_fields.len();
        let mut i: usize = 0;
        proof {
            assert(abcd_fields@.subrange(0, 0) =~= Seq::<AbcdFieldValue>::empty());
        }
        while i < n
            invariant
                i <= n,
                n == abcd_fields@.len(),
                abcd_fields.wf(),
                dataset_fields@.len() == global_fields(abcd_fields@.subrange(0, i as int)).len(),
                unit_fields@.len() == nonglobal_fields(abcd_fields@.subrange(0, i as int)).len(),
                forall|j: int|
                    0 <= j < dataset_fields@.len() ==> {
                        let gf = global_fields(abcd_fields@.subrange(0, i as int));
                        (#[trigger] dataset_fields@[j]).name@ == gf[j].name
                            && dataset_fields@[j].hash@ == column_hash_of(gf[j].name)
                    },
                forall|j: int|
                    0 <= j < unit_fields@.len() ==> {
                        let uf = nonglobal_fields(abcd_fields@.subrange(0, i as int));
                        (#[trigger] unit_fields@[j]).name@ == uf[j].name && unit_fields@[j].hash@
                            == column_hash_of(uf[j].name)
                    },
            decreases n - i,
        {
            let field = abcd_fields.field_at(i);
            if field.global_field {
                dataset_fields.push(Field::new(field.name.as_str()));
            } else {
                unit_fields.push(Field::new(field.name.as_str()));
            }
            i += 1;
            proof {
                let pre = abcd_fields@.subrange(0, i - 1);
                let cur = abcd_fields@.subrange(0, i as int);
                assert(cur.drop_last() =~= pre);
                assert(cur.last() == abcd_fields@[i - 1]);
                if cur.last().global_field {
                    assert(global_fields(cur) =~= global_fields(pre).push(cur.last()));
                    assert(nonglobal_fields(cur) =~= nonglobal_fields(pre));
                } else {
                    assert(nonglobal_fields(cur) =~= nonglobal_fields(pre).push(cur.last()));
                    assert(global_fields(cur) =~= global_fields(pre));
                }
            }
        }
        proof {
            assert(abcd_fields@.subrange(0, n as int) =~= abcd_fields@);
            assert(dataset_fields.deep_view() =~~= fields_for(global_fields(abcd_fields@)));
            assert(unit_fields.deep_view() =~~= fields_for(nonglobal_fields(abcd_fields@)));
        }
        (dataset_fields, unit_fields)
    }

    /// Insert a parsed result: a new external id gives one dataset COPY
    /// command and one unit COPY command under a fresh key; a known id
    /// gives the unit command alone, under the id's key.
    pub fn insert_dataset(
        &mut self,
        database_settings: &DatabaseSettings,
        abcd_data: &AbcdResult,
    ) -> (r: Vec<CopyCommand>)
        requires
            old(self).wf(),
            old(self).key_count() + 2 <= u32::MAX,
        ensures
            final(self).wf(),
            final(self).spec_dataset_fields() == old(self).spec_dataset_fields(),
            final(self).spec_unit_fields() == old(self).spec_unit_fields(),
            ({
                let id = abcd_data.dataset_id@;
                if old(self).keys().contains_key(id) {
                    let key = old(self).keys()[id];
                    &&& final(self).keys() == old(self).keys()
                    &&& final(self).key_count() == old(self).key_count()
                    &&& r.deep_view() =~~= seq![
                        final(self).unit_copy_command_value(
                            *database_settings,
                            key as nat,
                            abcd_data,
                        ),
                    ]
                } else {
                    let key = (old(self).key_count() + 1) as u32;
                    &&& final(self).keys() == old(self).keys().insert(id, key)
                    &&& final(self).key_count() == old(self).key_count() + 1
                    &&& r.deep_view() =~~= seq![
                        final(self).dataset_copy_command_value(
                            *database_settings,
                            key as nat,
                            abcd_data,
                        ),
                        final(self).unit_copy_command_value(
                            *database_settings,
                            key as nat,
                            abcd_data,
                        ),
                    ]
                }
            }),
    {
        let mut out: Vec<CopyCommand> = Vec::new();
        match self.surrogate_key.for_id(abcd_data.dataset_id.as_str()) {
            SurrogateKeyType::New(key) => {
                out.push(
                    Self::insert_dataset_metadata(
                        database_settings,
                        &self.dataset_fields,
                        abcd_data,
                        key,
                    ),
                );
                out.push(self.insert_units(database_settings, abcd_data, key));
            },
            SurrogateKeyType::Existing(key) => {
                out.push(self.insert_units(database_settings, abcd_data, key));
            },
        }
        out
    }

    /// The COPY command carrying one dataset row.
    pub open spec fn dataset_copy_command_value(
        &self,
        s: DatabaseSettings,
        key: nat,
        abcd_data: &AbcdResult,
    ) -> CopyCommandValue {
        dataset_copy_command(
            s,
            self.spec_dataset_fields(),
            key,
            abcd_data.dataset_id@,
            abcd_data.dataset_path@,
            abcd_data.landing_page@,
            abcd_data.provider_name@,
            abcd_data.dataset@,
        )
    }

    /// The COPY command carrying a result's unit rows.
    pub open spec fn unit_copy_command_value(
        &self,
        s: DatabaseSettings,
        key: nat,
        abcd_data: &AbcdResult,
    ) -> CopyCommandValue {
        unit_copy_command(s, self.spec_unit_fields(), key, abcd_data.units.deep_view())
    }

    /// The dataset row of a newly keyed result, as one COPY command.
    fn insert_dataset_metadata(
        database_settings: &DatabaseSettings,
        dataset_fields: &Vec<Field>,
        abcd_data: &AbcdResult,
        id: u32,
    ) -> (r: CopyCommand)
        ensures
            r.statement@ == copy_statement_for(
                *database_settings,
                database_settings.temp_dataset_table@,
                dataset_columns(*database_settings, dataset_fields.deep_view()),
            ),
            r.payload@ == csv_record_of(
                dataset_row_fields(
                    id as nat,
                    abcd_data.dataset_id@,
                    abcd_data.dataset_path@,
                    abcd_data.landing_page@,
                    abcd_data.provider_name@,
                    dataset_fields.deep_view(),
                    abcd_data.dataset@,
                ),
                '\t',
            ),
    {
        let n = dataset_fields.len();
        let mut columns: Vec<String> = Vec::new();
        columns.push(database_settings.surrogate_key_column.clone());
        columns.push(database_settings.dataset_id_column.clone());
        columns.push(database_settings.dataset_path_column.clone());
        columns.push(database_settings.dataset_landing_page_column.clone());
        columns.push(database_settings.dataset_provider_column.clone());
        let mut values: Vec<String> = Vec::new();
        values.push(u32_to_dec(id));
        values.push(abcd_data.dataset_id.clone());
        values.push(abcd_data.dataset_path.clone());
        values.push(abcd_data.landing_page.clone());
        values.push(abcd_data.provider_name.clone());
        let ghost base_columns = columns.deep_view();
        let ghost base_values = values.deep_view();
        let mut i: usize = 0;
        while i < n
            invariant
                i <= n,
                n == dataset_fields@.len(),
                columns@.len() == 5 + i,
                values@.len() == 5 + i,
                base_columns.len() == 5,
                base_values.len() == 5,
                forall|k: int| 0 <= k < 5 ==> (#[trigger] columns@[k])@ == base_columns[k],
                forall|k: int| 0 <= k < 5 ==> (#[trigger] values@[k])@ == base_values[k],
                forall|k: int|
                    5 <= k < columns@.len() ==> (#[trigger] columns@[k])@ == dataset_fields@[k
                        - 5].hash@,
                forall|k: int|
                    5 <= k < values@.len() ==> (#[trigger] values@[k])@ == rendered_value(
                        abcd_data.dataset@,
                        dataset_fields@[k - 5].name@,
                    ),
            decreases n - i,
        {
            let field = &dataset_fields[i];
            columns.push(field.hash.clone());
            match abcd_data.dataset.get(&field.name) {
                Some(value) => values.push(value.render()),
                None => values.push(String::new()),
            }
            i += 1;
        }
        proof {
            assert(columns.deep_view() =~~= dataset_columns(
                *database_settings,
                dataset_fields.deep_view(),
            ));
            assert(values.deep_view() =~~= dataset_row_fields(
                id as nat,
                abcd_data.dataset_id@,
                abcd_data.dataset_path@,
                abcd_data.landing_page@,
                abcd_data.provider_name@,
                dataset_fields.deep_view(),
                abcd_data.dataset@,
            ));
        }
        let payload = csv_record(&values, '\t');
        let statement = Self::copy_statement(
            database_settings,
            &database_settings.temp_dataset_table,
            &columns,
        );
        CopyCommand { statement, payload }
    }

    /// The unit rows of a result, as one COPY command under a key.
    fn insert_units(
        &self,
        database_settings: &DatabaseSettings,
        abcd_data: &AbcdResult,
        id: u32,
    ) -> (r: CopyCommand)
        ensures
            r.statement@ == copy_statement_for(
                *database_settings,
                database_settings.temp_unit_table@,
                unit_columns(*database_settings, self.spec_unit_fields()),
            ),
            r.payload@ == units_payload(
                id as nat,
                self.spec_unit_fields(),
                abcd_data.units.deep_view(),
            ),
    {
        let n = self.unit_fields.len();
        let mut columns: Vec<String> = Vec::new();
        columns.push(database_settings.surrogate_key_column.clone());
        let mut i: usize = 0;
        while i < n
            invariant
                i <= n,
                n == self.unit_fields@.len(),
                columns@.len() == 1 + i,
                columns@[0]@ == database_settings.surrogate_key_column@,
                forall|k: int|
                    1 <= k < columns@.len() ==> (#[trigger] columns@[k])@ == self.unit_fields@[k
                        - 1].hash@,
            decreases n - i,
        {
            columns.push(self.unit_fields[i].hash.clone());
            i += 1;
        }
        columns.push("geom".to_owned());
        proof {
            assert(columns.deep_view() =~~= unit_columns(
                *database_settings,
                self.spec_unit_fields(),
            ));
        }
        let m = abcd_data.units.len();
        let mut payload = String::new();
        let mut u: usize = 0;
        proof {
            assert(abcd_data.units.deep_view().subrange(0, 0) =~= Seq::<
                Map<Seq<char>, VatValue>,
            >::empty());
        }
        while u < m
            invariant
                u <= m,
                m == abcd_data.units@.len(),
                payload@ == units_payload(
                    id as nat,
                    self.spec_unit_fields(),
                    abcd_data.units.deep_view().subrange(0, u as int),
                ),
            decreases m - u,
        {
            let row = self.unit_row(abcd_data, u, id);
            payload.append(row.as_str());
            u += 1;
            proof {
                let pre = abcd_data.units.deep_view().subrange(0, u - 1);
                let cur = abcd_data.units.deep_view().subrange(0, u as int);
                assert(cur.drop_last() =~= pre);
                assert(cur.last() == abcd_data.units.deep_view()[u - 1]);
            }
        }
        proof {
            assert(abcd_data.units.deep_view().subrange(0, m as int) =~= abcd_data.units.deep_view());
        }
        let statement = Self::copy_statement(
            database_settings,
            &database_settings.temp_unit_table,
            &columns,
        );
        CopyCommand { statement, payload }
    }

    /// One unit row of the COPY payload.
    fn unit_row(&self, abcd_data: &AbcdResult, u: usize, id: u32) -> (r: String)
        requires
            u < abcd_data.units@.len(),
        ensures
            r@ == csv_record_of(
                unit_row_fields(
                    id as nat,
                    self.spec_unit_fields(),
                    abcd_data.units.deep_view()[u as int],
                ),
                '\t',
            ),
    {
        let unit_data = &abcd_data.units[u];
        let ghost m = abcd_data.units.deep_view()[u as int];
        proof {
            assert(m == abcd_data.units@[u as int].deep_view());
            assert(m == unit_data@);
            reveal_strlit(
                "/DataSets/DataSet/Units/Unit/Gathering/SiteCoordinateSets/SiteCoordinates/CoordinatesLatLong/LongitudeDecimal",
            );
            reveal_strlit(
                "/DataSets/DataSet/Units/Unit/Gathering/SiteCoordinateSets/SiteCoordinates/CoordinatesLatLong/LatitudeDecimal",
            );
            assert(longitude_path().len() != latitude_path().len());
        }
        let longitude_name: String =
            "/DataSets/DataSet/Units/Unit/Gathering/SiteCoordinateSets/SiteCoordinates/CoordinatesLatLong/LongitudeDecimal".to_owned();
        let latitude_name: String =
            "/DataSets/DataSet/Units/Unit/Gathering/SiteCoordinateSets/SiteCoordinates/CoordinatesLatLong/LatitudeDecimal".to_owned();
        let n = self.unit_fields.len();
        let mut values: Vec<String> = Vec::new();
        values.push(u32_to_dec(id));
        let mut lon: Option<String> = None;
        let mut lat: Option<String> = None;
        let mut i: usize = 0;
        while i < n
            invariant
                i <= n,
                n == self.unit_fields@.len(),
                m == abcd_data.units.deep_view()[u as int],
                m == unit_data@,
                u < abcd_data.units@.len(),
                longitude_name@ == longitude_path(),
                latitude_name@ == latitude_path(),
                longitude_path() != latitude_path(),
                values@.len() == 1 + i,
                values@[0]@ == dec_of(id as nat),
                forall|k: int|
                    1 <= k < values@.len() ==> (#[trigger] values@[k])@ == rendered_value(
                        m,
                        self.unit_fields@[k - 1].name@,
                    ),
                ({
                    let pre = self.spec_unit_fields().subrange(0, i as int);
                    &&& match lon {
                        Some(v) => contains_name(pre, longitude_path()) && m.contains_key(
                            longitude_path(),
                        ) && v@ == vat_text(m[longitude_path()]),
                        None => !(contains_name(pre, longitude_path()) && m.contains_key(
                            longitude_path(),
                        )),
                    }
                    &&& match lat {
                        Some(v) => contains_name(pre, latitude_path()) && m.contains_key(
                            latitude_path(),
                        ) && v@ == vat_text(m[latitude_path()]),
                        None => !(contains_name(pre, latitude_path()) && m.contains_key(
                            latitude_path(),
                        )),
                    }
                }),
            decreases n - i,
        {
            let field = &self.unit_fields[i];
            match unit_data.get(&field.name) {
                Some(value) => {
                    values.push(value.render());
                    if field.name == longitude_name {
                        lon = Some(value.render());
                    } else if field.name == latitude_name {
                        lat = Some(value.render());
                    }
                },
                None => values.push(String::new()),
            }
            i += 1;
            proof {
                let pre = self.spec_unit_fields().subrange(0, i - 1);
                let cur = self.spec_unit_fields().subrange(0, i as int);
                assert(cur.drop_last() =~= pre);
                assert(cur.last() == self.spec_unit_fields()[i - 1]);
                assert(forall|j: int|
                    0 <= j < pre.len() ==> #[trigger] cur[j] == pre[j]);
                assert(self.spec_unit_fields()[i - 1].name == self.unit_fields@[i - 1].name@);
                if contains_name(pre, longitude_path()) {
                    let w = choose|j: int|
                        0 <= j < pre.len() && pre[j].name == longitude_path();
                    assert(cur[w].name == longitude_path());
                    assert(contains_name(cur, longitude_path()));
                }
                if contains_name(pre, latitude_path()) {
                    let w = choose|j: int| 0 <= j < pre.len() && pre[j].name == latitude_path();
                    assert(cur[w].name == latitude_path());
                    assert(contains_name(cur, latitude_path()));
                }
                if !contains_name(cur, longitude_path()) {
                } else {
                    let w = choose|j: int|
                        0 <= j < cur.len() && cur[j].name == longitude_path();
                    if w < pre.len() {
                        assert(pre[w].name == longitude_path());
                        assert(contains_name(pre, longitude_path()));
                    }
                }
                if !contains_name(cur, latitude_path()) {
                } else {
                    let w = choose|j: int| 0 <= j < cur.len() && cur[j].name == latitude_path();
                    if w < pre.len() {
                        assert(pre[w].name == latitude_path());
                        assert(contains_name(pre, latitude_path()));
                    }
                }
            }
        }
        let geom: String = match (lon, lat) {
            (Some(lon_value), Some(lat_value)) => {
                let mut g: String = "POINT(".to_owned();
                g.append(lon_value.as_str());
                g.append(" ");
                g.append(lat_value.as_str());
                g.append(")");
                g
            },
            _ => String::new(),
        };
        values.push(geom);
        proof {
            assert(self.spec_unit_fields().subrange(0, n as int) =~= self.spec_unit_fields());
            assert(values.deep_view() =~~= unit_row_fields(
                id as nat,
                self.spec_unit_fields(),
                m,
            ));
        }
        csv_record(&values, '\t')
    }

    /// The COPY statement for a table and its columns.
    fn copy_statement(
        database_settings: &DatabaseSettings,
        table: &String,
        columns: &Vec<String>,
    ) -> (r: String)
        ensures
            r@ == copy_statement_for(*database_settings, table@, columns.deep_view()),
    {
        let mut s: String = "COPY ".to_owned();
        s.append(database_settings.schema.as_str());
        s.append(".");
        s.append(table.as_str());
        s.append("(\"");
        let joined = join_strings(columns, "\",\"");
        s.append(joined.as_str());
        s.append("\") FROM STDIN WITH (");
        s.append("DELIMITER '\t', NULL '', QUOTE '\"', ESCAPE '\"', FORMAT CSV");
        s.append(")");
        s
    }
}

/// The statement dropping a table if it exists.
pub open spec fn drop_table_statement(schema: Seq<char>, table: Seq<char>) -> Seq<char> {
    "DROP TABLE IF EXISTS "@ + schema + "."@ + table + ";"@
}

/// The statement dropping a view if it exists.
pub open spec fn drop_view_statement(schema: Seq<char>, view: Seq<char>) -> Seq<char> {
    "DROP VIEW IF EXISTS "@ + schema + "."@ + view + ";"@
}

/// The name of the translation table derived from a dataset table name.
pub open spec fn translation_table_of(table: Seq<char>) -> Seq<char> {
    table + "_translation"@
}

/// The statement creating the translation table.
pub open spec fn translation_create_statement(s: DatabaseSettings) -> Seq<char> {
    "create table "@ + s.schema@ + "."@ + s.temp_dataset_table@
        + "_translation (name text not null, hash text not null);"@
}

/// The parameterized statement filling the translation table.
pub open spec fn translation_insert_statement(s: DatabaseSettings) -> Seq<char> {
    "insert into "@ + s.schema@ + "."@ + s.temp_dataset_table@
        + "_translation(name, hash) VALUES ($1, $2);"@
}

/// The column definitions of the dataset temporary table, in order.
pub open spec fn dataset_column_defs(
    s: DatabaseSettings,
    dict: Seq<AbcdFieldValue>,
    fields: Seq<FieldValue>,
) -> Seq<Seq<char>> {
    seq![
        s.surrogate_key_column@ + " int primary key"@,
        s.dataset_id_column@ + " text not null"@,
        s.dataset_path_column@ + " text not null"@,
        s.dataset_landing_page_column@ + " text not null"@,
        s.dataset_provider_column@ + " text not null"@,
    ] + fields.map(|i: int, f: FieldValue| hash_column_def(dict, f))
}

/// The statement creating the dataset temporary table.
pub open spec fn create_dataset_table_statement(
    s: DatabaseSettings,
    dict: Seq<AbcdFieldValue>,
    fields: Seq<FieldValue>,
) -> Seq<char> {
    "CREATE TABLE "@ + s.schema@ + "."@ + s.temp_dataset_table@ + " ( "@ + join_with(
        dataset_column_defs(s, dict, fields),
        ","@,
    ) + " );"@
}

/// The column definitions of the unit temporary table, in order.
pub open spec fn unit_column_defs(
    s: DatabaseSettings,
    dict: Seq<AbcdFieldValue>,
    fields: Seq<FieldValue>,
) -> Seq<Seq<char>> {
    seq![s.surrogate_key_column@ + " int not null"@, "geom geometry(Point)"@] + fields.map(
        |i: int, f: FieldValue| hash_column_def(dict, f),
    )
}

/// The statement creating the unit temporary table.
pub open spec fn create_unit_table_statement(
    s: DatabaseSettings,
    dict: Seq<AbcdFieldValue>,
    fields: Seq<FieldValue>,
) -> Seq<char> {
    "CREATE TABLE "@ + s.schema@ + "."@ + s.temp_unit_table@ + " ( "@ + join_with(
        unit_column_defs(s, dict, fields),
        ","@,
    ) + " );"@
}

/// The statement adding the unit-to-dataset foreign key.
pub open spec fn foreign_key_statement(s: DatabaseSettings) -> Seq<char> {
    "ALTER TABLE "@ + s.schema@ + "."@ + s.temp_unit_table@ + " ADD CONSTRAINT "@
        + s.temp_unit_table@ + "_"@ + s.surrogate_key_column@ + "_fk FOREIGN KEY ("@
        + s.surrogate_key_column@ + ") REFERENCES "@ + s.schema@ + "."@ + s.temp_dataset_table@
        + "("@ + s.surrogate_key_column@ + ");"@
}

/// The hashed identifiers of the configured indexed unit columns.
pub open spec fn indexed_column_hashes(s: DatabaseSettings) -> Seq<Seq<char>> {
    s.unit_indexed_columns@.map(|i: int, c: String| column_hash_of(c@))
}

/// The statement creating the B-tree index over the unit table: the
/// surrogate key, then the configured indexed unit columns; with none
/// configured, the surrogate key alone.
pub open spec fn unit_index_statement(s: DatabaseSettings) -> Seq<char> {
    let hashes = indexed_column_hashes(s);
    let others = if hashes.len() == 0 {
        Seq::<char>::empty()
    } else {
        ", \""@ + join_with(hashes, "\", \""@) + "\""@
    };
    "CREATE INDEX "@ + s.temp_unit_table@ + "_idx ON "@ + s.schema@ + "."@ + s.temp_unit_table@
        + " USING btree ("@ + s.surrogate_key_column@ + " "@ + others + ");"@
}

/// The statement creating the spatial index on `geom`.
pub open spec fn geom_index_statement(s: DatabaseSettings) -> Seq<char> {
    "CREATE INDEX "@ + s.temp_unit_table@ + "_geom_idx ON "@ + s.schema@ + "."@
        + s.temp_unit_table@ + " USING SPGIST (geom);"@
}

/// The statement clustering the unit table by its B-tree index.
pub open spec fn cluster_statement(s: DatabaseSettings) -> Seq<char> {
    "CLUSTER "@ + s.temp_unit_table@ + "_idx ON "@ + s.schema@ + "."@ + s.temp_unit_table@ + ";"@
}

/// The statement refreshing a table's statistics.
pub open spec fn vacuum_statement(schema: Seq<char>, table: Seq<char>) -> Seq<char> {
    "VACUUM ANALYZE "@ + schema + "."@ + table + ";"@
}

/// The statement renaming a table.
pub open spec fn rename_table_statement(
    schema: Seq<char>,
    from: Seq<char>,
    to: Seq<char>,
) -> Seq<char> {
    "ALTER TABLE "@ + schema + "."@ + from + " RENAME TO "@ + to + ";"@
}

/// The statement renaming the dataset table's primary key constraint.
pub open spec fn pkey_rename_statement(s: DatabaseSettings) -> Seq<char> {
    "ALTER TABLE "@ + s.schema@ + "."@ + s.dataset_table@ + " RENAME CONSTRAINT "@
        + s.temp_dataset_table@ + "_pkey TO "@ + s.dataset_table@ + "_pkey;"@
}

/// The statement renaming the unit table's foreign key constraint.
pub open spec fn fk_rename_statement(s: DatabaseSettings) -> Seq<char> {
    "ALTER TABLE "@ + s.schema@ + "."@ + s.unit_table@ + " RENAME CONSTRAINT "@
        + s.temp_unit_table@ + "_"@ + s.surrogate_key_column@ + "_fk TO "@ + s.unit_table@ + "_"@
        + s.surrogate_key_column@ + "_fk;"@
}

/// The statement renaming the unit table's B-tree index.
pub open spec fn index_rename_statement(s: DatabaseSettings) -> Seq<char> {
    "ALTER INDEX "@ + s.schema@ + "."@ + s.temp_unit_table@ + "_idx RENAME TO "@ + s.unit_table@
        + "_idx;"@
}

/// The statement renaming the unit table's spatial index.
pub open spec fn geom_index_rename_statement(s: DatabaseSettings) -> Seq<char> {
    "ALTER INDEX "@ + s.schema@ + "."@ + s.temp_unit_table@ + "_geom_idx RENAME TO "@
        + s.unit_table@ + "_geom_idx;"@
}

/// The column identifier of the first field carrying a path.
pub open spec fn first_hash_for(fields: Seq<FieldValue>, name: Seq<char>) -> Option<Seq<char>>
    decreases fields.len(),
{
    if fields.len() == 0 {
        None
    } else if fields.first().name == name {
        Some(fields.first().hash)
    } else {
        first_hash_for(fields.drop_first(), name)
    }
}

/// The title column binding of the listing view: the title field's quoted
/// column where the dictionary maps it, the empty string literal
/// otherwise.
pub open spec fn title_binding(dataset_fields: Seq<FieldValue>) -> Seq<char> {
    match first_hash_for(dataset_fields, title_path()) {
        Some(h) => "\""@ + h + "\""@,
        None => "''"@,
    }
}

/// A coordinate column binding of the listing view: the field's quoted
/// column where the dictionary maps it, NULL otherwise.
pub open spec fn coordinate_binding(unit_fields: Seq<FieldValue>, path: Seq<char>) -> Seq<char> {
    match first_hash_for(unit_fields, path) {
        Some(h) => "\""@ + h + "\""@,
        None => "NULL"@,
    }
}

/// The statement creating the listing view over the published tables.
pub open spec fn listing_view_statement(
    s: DatabaseSettings,
    dataset_fields: Seq<FieldValue>,
    unit_fields: Seq<FieldValue>,
) -> Seq<char> {
    "\n            CREATE VIEW "@ + s.schema@ + "."@ + s.listing_view@
        + " AS (\n            select link, dataset, id, provider, isGeoReferenced as available, isGeoReferenced\n            from (\n                   select "@
        + s.dataset_landing_page_column@ + " as link,\n                          "@
        + title_binding(dataset_fields) + "               as dataset,\n                          "@
        + s.dataset_id_column@ + "           as id,\n                          "@
        + s.dataset_provider_column@
        + "     as provider,\n                          (SELECT EXISTS(\n                              select * from "@
        + s.schema@ + "."@ + s.unit_table@ + "\n                              where "@
        + s.dataset_table@ + "."@ + s.surrogate_key_column@ + " = "@ + s.unit_table@ + "."@
        + s.surrogate_key_column@ + "\n                                and "@ + coordinate_binding(
        unit_fields,
        latitude_path(),
    ) + " is not null\n                                and "@ + coordinate_binding(
        unit_fields,
        longitude_path(),
    )
        + " is not null\n                            ))                 as isGeoReferenced\n                   from "@
        + s.schema@ + "."@ + s.dataset_table@ + "\n            ) sub);"@
}

/// The plan that sets the temporary schema up: its statements in order,
/// and the parameterized fill of the translation table with its rows.
#[derive(Debug)]
pub struct SchemaPlan {
    pub statements: Vec<String>,
    pub translation_insert: String,
    pub translation_rows: Vec<Field>,
}

/// The plan that publishes the temporary schema: the index and statistics
/// statements run first, then the statements of one serializable
/// transaction.
#[derive(Debug)]
pub struct MigrationPlan {
    pub before: Vec<String>,
    pub within_transaction: Vec<String>,
}

fn drop_table_exec(schema: &String, table: &String) -> (r: String)
    ensures
        r@ == drop_table_statement(schema@, table@),
{
    let mut s: String = "DROP TABLE IF EXISTS ".to_owned();
    s.append(schema.as_str());
    s.append(".");
    s.append(table.as_str());
    s.append(";");
    s
}

fn translation_table_name(table: &String) -> (r: String)
    ensures
        r@ == translation_table_of(table@),
{
    let mut t = table.clone();
    t.append("_translation");
    t
}

impl DatabaseSink {
    /// The statements that drop any earlier temporary tables.
    fn drop_temporary_tables(database_settings: &DatabaseSettings) -> (r: Vec<String>)
        ensures
            r.deep_view() =~~= seq![
                drop_table_statement(
                    database_settings.schema@,
                    database_settings.temp_unit_table@,
                ),
                drop_table_statement(
                    database_settings.schema@,
                    database_settings.temp_dataset_table@,
                ),
                drop_table_statement(
                    database_settings.schema@,
                    translation_table_of(database_settings.temp_dataset_table@),
                ),
            ],
    {
        let mut out: Vec<String> = Vec::new();
        out.push(drop_table_exec(&database_settings.schema, &database_settings.temp_unit_table));
        out.push(
            drop_table_exec(&database_settings.schema, &database_settings.temp_dataset_table),
        );
        let translation = translation_table_name(&database_settings.temp_dataset_table);
        out.push(drop_table_exec(&database_settings.schema, &translation));
        out
    }

    /// The statement creating the dataset temporary table, with one column
    /// per dataset-level field; a field the dictionary does not know gives
    /// the error instead.
    fn create_temporary_dataset_table(
        database_settings: &DatabaseSettings,
        abcd_fields: &AbcdFields,
        dataset_fields: &Vec<Field>,
    ) -> (r: Result<String, DatabaseSinkError>)
        requires
            abcd_fields.wf(),
            forall|j: int|
                0 <= j < dataset_fields@.len() ==> dict_lookup(
                    abcd_fields@,
                    (#[trigger] dataset_fields@[j]).name@,
                ) is Some,
        ensures
            r matches Ok(stmt) && stmt@ == create_dataset_table_statement(
                *database_settings,
                abcd_fields@,
                dataset_fields.deep_view(),
            ),
    {
        let mut defs: Vec<String> = Vec::new();
        let mut d0 = database_settings.surrogate_key_column.clone();
        d0.append(" int primary key");
        defs.push(d0);
        let mut d1 = database_settings.dataset_id_column.clone();
        d1.append(" text not null");
        defs.push(d1);
        let mut d2 = database_settings.dataset_path_column.clone();
        d2.append(" text not null");
        defs.push(d2);
        let mut d3 = database_settings.dataset_landing_page_column.clone();
        d3.append(" text not null");
        defs.push(d3);
        let mut d4 = database_settings.dataset_provider_column.clone();
        d4.append(" text not null");
        defs.push(d4);
        let n = dataset_fields.len();
        let mut i: usize = 0;
        while i < n
            invariant
                i <= n,
                n == dataset_fields@.len(),
                abcd_fields.wf(),
                forall|j: int|
                    0 <= j < dataset_fields@.len() ==> dict_lookup(
                        abcd_fields@,
                        (#[trigger] dataset_fields@[j]).name@,
                    ) is Some,
                defs@.len() == 5 + i,
                defs@[0]@ == database_settings.surrogate_key_column@ + " int primary key"@,
                defs@[1]@ == database_settings.dataset_id_column@ + " text not null"@,
                defs@[2]@ == database_settings.dataset_path_column@ + " text not null"@,
                defs@[3]@ == database_settings.dataset_landing_page_column@ + " text not null"@,
                defs@[4]@ == database_settings.dataset_provider_column@ + " text not null"@,
                forall|k: int|
                    5 <= k < defs@.len() ==> (#[trigger] defs@[k])@ == hash_column_def(
                        abcd_fields@,
                        dataset_fields@[k - 5]@,
                    ),
            decreases n - i,
        {
            let field = &dataset_fields[i];
            let path = crate::strutil::chars_of(field.name.as_str());
            match abcd_fields.value_of(&path) {
                None => {
                    return Err(DatabaseSinkError::InconsistentDatasetColumns(field.name.clone()));
                },
                Some(abcd_field) => {
                    let mut def: String = "\"".to_owned();
                    def.append(field.hash.as_str());
                    def.append("\" ");
                    if abcd_field.numeric {
                        def.append("double precision");
                    } else {
                        def.append("text");
                    }
                    def.append(" ");
                    defs.push(def);
                },
            }
            i += 1;
        }
        proof {
            assert(defs.deep_view() =~~= dataset_column_defs(
                *database_settings,
                abcd_fields@,
                dataset_fields.deep_view(),
            ));
        }
        let mut stmt: String = "CREATE TABLE ".to_owned();
        stmt.append(database_settings.schema.as_str());
        stmt.append(".");
        stmt.append(database_settings.temp_dataset_table.as_str());
        stmt.append(" ( ");
        let joined = join_strings(&defs, ",");
        stmt.append(joined.as_str());
        stmt.append(" );");
        proof {
            assert(stmt@ =~= create_dataset_table_statement(
                *database_settings,
                abcd_fields@,
                dataset_fields.deep_view(),
            ));
        }
        Ok(stmt)
    }

    /// The statement creating the unit temporary table, with one column
    /// per unit-level field; a field the dictionary does not know gives
    /// the error instead.
    fn create_temporary_unit_table(
        database_settings: &DatabaseSettings,
        abcd_fields: &AbcdFields,
        unit_fields: &Vec<Field>,
    ) -> (r: Result<String, DatabaseSinkError>)
        requires
            abcd_fields.wf(),
            forall|j: int|
                0 <= j < unit_fields@.len() ==> dict_lookup(
                    abcd_fields@,
                    (#[trigger] unit_fields@[j]).name@,
                ) is Some,
        ensures
            r matches Ok(stmt) && stmt@ == create_unit_table_statement(
                *database_settings,
                abcd_fields@,
                unit_fields.deep_view(),
            ),
    {
        let mut defs: Vec<String> = Vec::new();
        let mut d0 = database_settings.surrogate_key_column.clone();
        d0.append(" int not null");
        defs.push(d0);
        defs.push("geom geometry(Point)".to_owned());
        let n = unit_fields.len();
        let mut i: usize = 0;
        while i < n
            invariant
                i <= n,
                n == unit_fields@.len(),
                abcd_fields.wf(),
                forall|j: int|
                    0 <= j < unit_fields@.len() ==> dict_lookup(
                        abcd_fields@,
                        (#[trigger] unit_fields@[j]).name@,
                    ) is Some,
                defs@.len() == 2 + i,
                defs@[0]@ == database_settings.surrogate_key_column@ + " int not null"@,
                defs@[1]@ == "geom geometry(Point)"@,
                forall|k: int|
                    2 <= k < defs@.len() ==> (#[trigger] defs@[k])@ == hash_column_def(
                        abcd_fields@,
                        unit_fields@[k - 2]@,
                    ),
            decreases n - i,
        {
            let field = &unit_fields[i];
            let path = crate::strutil::chars_of(field.name.as_str());
            match abcd_fields.value_of(&path) {
                None => {
                    return Err(DatabaseSinkError::InconsistentUnitColumns(field.name.clone()));
                },
                Some(abcd_field) => {
                    let mut def: String = "\"".to_owned();
                    def.append(field.hash.as_str());
                    def.append("\" ");
                    if abcd_field.numeric {
                        def.append("double precision");
                    } else {
                        def.append("text");
                    }
                    def.append(" ");
                    defs.push(def);
                },
            }
            i += 1;
        }
        proof {
            assert(defs.deep_view() =~~= unit_column_defs(
                *database_settings,
                abcd_fields@,
                unit_fields.deep_view(),
            ));
        }
        let mut stmt: String = "CREATE TABLE ".to_owned();
        stmt.append(database_settings.schema.as_str());
        stmt.append(".");
        stmt.append(database_settings.temp_unit_table.as_str());
        stmt.append(" ( ");
        let joined = join_strings(&defs, ",");
        stmt.append(joined.as_str());
        stmt.append(" );");
        proof {
            assert(stmt@ =~= create_unit_table_statement(
                *database_settings,
                abcd_fields@,
                unit_fields.deep_view(),
            ));
        }
        Ok(stmt)
    }

    /// The plan that sets the temporary schema up: drop leftovers, create
    /// the dataset, unit and translation tables, and fill the translation
    /// table with one row per field.
    pub fn initialize_temporary_schema(
        &self,
        database_settings: &DatabaseSettings,
        abcd_fields: &AbcdFields,
    ) -> (r: Result<SchemaPlan, DatabaseSinkError>)
        requires
            abcd_fields.wf(),
            self.spec_dataset_fields() == fields_for(global_fields(abcd_fields@)),
            self.spec_unit_fields() == fields_for(nonglobal_fields(abcd_fields@)),
        ensures
            r matches Ok(plan) && {
                &&& plan.statements.deep_view() =~~= seq![
                    drop_table_statement(
                        database_settings.schema@,
                        database_settings.temp_unit_table@,
                    ),
                    drop_table_statement(
                        database_settings.schema@,
                        database_settings.temp_dataset_table@,
                    ),
                    drop_table_statement(
                        database_settings.schema@,
                        translation_table_of(database_settings.temp_dataset_table@),
                    ),
                    create_dataset_table_statement(
                        *database_settings,
                        abcd_fields@,
                        self.spec_dataset_fields(),
                    ),
                    create_unit_table_statement(
                        *database_settings,
                        abcd_fields@,
                        self.spec_unit_fields(),
                    ),
                    translation_create_statement(*database_settings),
                ]
                &&& plan.translation_insert@ == translation_insert_statement(*database_settings)
                &&& plan.translation_rows.deep_view() =~~= self.spec_dataset_fields()
                    + self.spec_unit_fields()
            },
    {
        proof {
            assert forall|j: int|
                0 <= j < self.dataset_fields@.len() implies dict_lookup(
                abcd_fields@,
                (#[trigger] self.dataset_fields@[j]).name@,
            ) is Some by {
                let gf = global_fields(abcd_fields@);
                assert(self.spec_dataset_fields().len() == fields_for(gf).len());
                assert(self.spec_dataset_fields().len() == self.dataset_fields@.len());
                assert(0 <= j < gf.len());
                assert(self.spec_dataset_fields()[j] == self.dataset_fields@[j].deep_view());
                assert(self.spec_dataset_fields()[j] == fields_for(gf)[j]);
                assert(fields_for(gf)[j].name == gf[j].name);
                assert(self.dataset_fields@[j].name@ == gf[j].name);
                lemma_global_fields_member(abcd_fields@, j);
                let i = choose|i: int| 0 <= i < abcd_fields@.len() && gf[j] == abcd_fields@[i];
                crate::abcd_fields::lemma_dict_lookup_present(abcd_fields@, i);
            };
            assert forall|j: int|
                0 <= j < self.unit_fields@.len() implies dict_lookup(
                abcd_fields@,
                (#[trigger] self.unit_fields@[j]).name@,
            ) is Some by {
                let uf = nonglobal_fields(abcd_fields@);
                assert(self.spec_unit_fields().len() == fields_for(uf).len());
                assert(self.spec_unit_fields().len() == self.unit_fields@.len());
                assert(0 <= j < uf.len());
                assert(self.spec_unit_fields()[j] == self.unit_fields@[j].deep_view());
                assert(self.spec_unit_fields()[j] == fields_for(uf)[j]);
                assert(fields_for(uf)[j].name == uf[j].name);
                assert(self.unit_fields@[j].name@ == uf[j].name);
                lemma_nonglobal_fields_member(abcd_fields@, j);
                let i = choose|i: int| 0 <= i < abcd_fields@.len() && uf[j] == abcd_fields@[i];
                crate::abcd_fields::lemma_dict_lookup_present(abcd_fields@, i);
            };
        }
        let mut statements = Self::drop_temporary_tables(database_settings);
        let dataset_stmt = match Self::create_temporary_dataset_table(
            database_settings,
            abcd_fields,
            &self.dataset_fields,
        ) {
            Ok(stmt) => stmt,
            Err(e) => {
                return Err(e);
            },
        };
        statements.push(dataset_stmt);
        let unit_stmt = match Self::create_temporary_unit_table(
            database_settings,
            abcd_fields,
            &self.unit_fields,
        ) {
            Ok(stmt) => stmt,
            Err(e) => {
                return Err(e);
            },
        };
        statements.push(unit_stmt);
        let mut create_translation: String = "create table ".to_owned();
        create_translation.append(database_settings.schema.as_str());
        create_translation.append(".");
        create_translation.append(database_settings.temp_dataset_table.as_str());
        create_translation.append("_translation (name text not null, hash text not null);");
        statements.push(create_translation);
        let mut translation_insert: String = "insert into ".to_owned();
        translation_insert.append(database_settings.schema.as_str());
        translation_insert.append(".");
        translation_insert.append(database_settings.temp_dataset_table.as_str());
        translation_insert.append("_translation(name, hash) VALUES ($1, $2);");
        let mut translation_rows: Vec<Field> = Vec::new();
        let dn = self.dataset_fields.len();
        let mut i: usize = 0;
        while i < dn
            invariant
                i <= dn,
                dn == self.dataset_fields@.len(),
                translation_rows@.len() == i,
                forall|k: int|
                    0 <= k < i ==> (#[trigger] translation_rows@[k]).name@
                        == self.dataset_fields@[k].name@ && translation_rows@[k].hash@
                        == self.dataset_fields@[k].hash@,
            decreases dn - i,
        {
            translation_rows.push(self.dataset_fields[i].duplicate());
            i += 1;
        }
        let un = self.unit_fields.len();
        let mut j: usize = 0;
        while j < un
            invariant
                j <= un,
                un == self.unit_fields@.len(),
                dn == self.dataset_fields@.len(),
                translation_rows@.len() == dn + j,
                forall|k: int|
                    0 <= k < dn ==> (#[trigger] translation_rows@[k]).name@
                        == self.dataset_fields@[k].name@ && translation_rows@[k].hash@
                        == self.dataset_fields@[k].hash@,
                forall|k: int|
                    dn <= k < dn + j ==> (#[trigger] translation_rows@[k]).name@
                        == self.unit_fields@[k - dn].name@ && translation_rows@[k].hash@
                        == self.unit_fields@[k - dn].hash@,
            decreases un - j,
        {
            translation_rows.push(self.unit_fields[j].duplicate());
            j += 1;
        }
        proof {
            assert(translation_rows.deep_view() =~~= self.spec_dataset_fields()
                + self.spec_unit_fields());
        }
        Ok(SchemaPlan { statements, translation_insert, translation_rows })
    }

    /// The statements that build the foreign key, the indexes, the
    /// clustering and the statistics on the temporary tables.
    fn create_indexes_and_statistics(database_settings: &DatabaseSettings) -> (r: Vec<String>)
        ensures
            r.deep_view() =~~= seq![
                foreign_key_statement(*database_settings),
                unit_index_statement(*database_settings),
                geom_index_statement(*database_settings),
                cluster_statement(*database_settings),
                vacuum_statement(
                    database_settings.schema@,
                    database_settings.temp_dataset_table@,
                ),
                vacuum_statement(database_settings.schema@, database_settings.temp_unit_table@),
            ],
    {
        let mut out: Vec<String> = Vec::new();
        let mut fk: String = "ALTER TABLE ".to_owned();
        fk.append(database_settings.schema.as_str());
        fk.append(".");
        fk.append(database_settings.temp_unit_table.as_str());
        fk.append(" ADD CONSTRAINT ");
        fk.append(database_settings.temp_unit_table.as_str());
        fk.append("_");
        fk.append(database_settings.surrogate_key_column.as_str());
        fk.append("_fk FOREIGN KEY (");
        fk.append(database_settings.surrogate_key_column.as_str());
        fk.append(") REFERENCES ");
        fk.append(database_settings.schema.as_str());
        fk.append(".");
        fk.append(database_settings.temp_dataset_table.as_str());
        fk.append("(");
        fk.append(database_settings.surrogate_key_column.as_str());
        fk.append(");");
        proof {
            assert(fk@ =~= foreign_key_statement(*database_settings));
        }
        out.push(fk);
        let hn = database_settings.unit_indexed_columns.len();
        let mut hashes: Vec<String> = Vec::new();
        let mut h: usize = 0;
        while h < hn
            invariant
                h <= hn,
                hn == database_settings.unit_indexed_columns@.len(),
                hashes@.len() == h,
                forall|k: int|
                    0 <= k < h ==> (#[trigger] hashes@[k])@ == column_hash_of(
                        database_settings.unit_indexed_columns@[k]@,
                    ),
            decreases hn - h,
        {
            let field = Field::new(database_settings.unit_indexed_columns[h].as_str());
            hashes.push(field.hash);
            h += 1;
        }
        proof {
            assert(hashes.deep_view() =~~= indexed_column_hashes(*database_settings));
        }
        let mut idx: String = "CREATE INDEX ".to_owned();
        idx.append(database_settings.temp_unit_table.as_str());
        idx.append("_idx ON ");
        idx.append(database_settings.schema.as_str());
        idx.append(".");
        idx.append(database_settings.temp_unit_table.as_str());
        idx.append(" USING btree (");
        idx.append(database_settings.surrogate_key_column.as_str());
        idx.append(" ");
        if hashes.len() > 0 {
            idx.append(", \"");
            let joined = join_strings(&hashes, "\", \"");
            idx.append(joined.as_str());
            idx.append("\"");
        }
        idx.append(");");
        proof {
            assert(idx@ =~= unit_index_statement(*database_settings));
        }
        out.push(idx);
        let mut gidx: String = "CREATE INDEX ".to_owned();
        gidx.append(database_settings.temp_unit_table.as_str());
        gidx.append("_geom_idx ON ");
        gidx.append(database_settings.schema.as_str());
        gidx.append(".");
        gidx.append(database_settings.temp_unit_table.as_str());
        gidx.append(" USING SPGIST (geom);");
        proof {
            assert(gidx@ =~= geom_index_statement(*database_settings));
        }
        out.push(gidx);
        let mut cl: String = "CLUSTER ".to_owned();
        cl.append(database_settings.temp_unit_table.as_str());
        cl.append("_idx ON ");
        cl.append(database_settings.schema.as_str());
        cl.append(".");
        cl.append(database_settings.temp_unit_table.as_str());
        cl.append(";");
        proof {
            assert(cl@ =~= cluster_statement(*database_settings));
        }
        out.push(cl);
        let mut va: String = "VACUUM ANALYZE ".to_owned();
        va.append(database_settings.schema.as_str());
        va.append(".");
        va.append(database_settings.temp_dataset_table.as_str());
        va.append(";");
        out.push(va);
        let mut vb: String = "VACUUM ANALYZE ".to_owned();
        vb.append(database_settings.schema.as_str());
        vb.append(".");
        vb.append(database_settings.temp_unit_table.as_str());
        vb.append(";");
        out.push(vb);
        out
    }

    /// The statements that drop the published tables and the listing view.
    fn drop_old_tables(database_settings: &DatabaseSettings) -> (r: Vec<String>)
        ensures
            r.deep_view() =~~= seq![
                drop_view_statement(database_settings.schema@, database_settings.listing_view@),
                drop_table_statement(database_settings.schema@, database_settings.unit_table@),
                drop_table_statement(database_settings.schema@, database_settings.dataset_table@),
                drop_table_statement(
                    database_settings.schema@,
                    translation_table_of(database_settings.dataset_table@),
                ),
            ],
    {
        let mut out: Vec<String> = Vec::new();
        let mut dv: String = "DROP VIEW IF EXISTS ".to_owned();
        dv.append(database_settings.schema.as_str());
        dv.append(".");
        dv.append(database_settings.listing_view.as_str());
        dv.append(";");
        out.push(dv);
        out.push(drop_table_exec(&database_settings.schema, &database_settings.unit_table));
        out.push(drop_table_exec(&database_settings.schema, &database_settings.dataset_table));
        let translation = translation_table_name(&database_settings.dataset_table);
        out.push(drop_table_exec(&database_settings.schema, &translation));
        out
    }

    /// The statements that rename the temporary tables to their published
    /// names.
    fn rename_temporary_tables(database_settings: &DatabaseSettings) -> (r: Vec<String>)
        ensures
            r.deep_view() =~~= seq![
                rename_table_statement(
                    database_settings.schema@,
                    database_settings.temp_unit_table@,
                    database_settings.unit_table@,
                ),
                rename_table_statement(
                    database_settings.schema@,
                    database_settings.temp_dataset_table@,
                    database_settings.dataset_table@,
                ),
                rename_table_statement(
                    database_settings.schema@,
                    translation_table_of(database_settings.temp_dataset_table@),
                    translation_table_of(database_settings.dataset_table@),
                ),
            ],
    {
        let mut out: Vec<String> = Vec::new();
        let mut r0: String = "ALTER TABLE ".to_owned();
        r0.append(database_settings.schema.as_str());
        r0.append(".");
        r0.append(database_settings.temp_unit_table.as_str());
        r0.append(" RENAME TO ");
        r0.append(database_settings.unit_table.as_str());
        r0.append(";");
        out.push(r0);
        let mut r1: String = "ALTER TABLE ".to_owned();
        r1.append(database_settings.schema.as_str());
        r1.append(".");
        r1.append(database_settings.temp_dataset_table.as_str());
        r1.append(" RENAME TO ");
        r1.append(database_settings.dataset_table.as_str());
        r1.append(";");
        out.push(r1);
        let mut r2: String = "ALTER TABLE ".to_owned();
        r2.append(database_settings.schema.as_str());
        r2.append(".");
        r2.append(database_settings.temp_dataset_table.as_str());
        r2.append("_translation");
        r2.append(" RENAME TO ");
        r2.append(database_settings.dataset_table.as_str());
        r2.append("_translation");
        r2.append(";");
        proof {
            assert(r2@ =~= rename_table_statement(
                database_settings.schema@,
                translation_table_of(database_settings.temp_dataset_table@),
                translation_table_of(database_settings.dataset_table@),
            ));
        }
        out.push(r2);
        out
    }

    /// The statements that rename the constraints and the indexes to their
    /// published names.
    fn rename_constraints_and_indexes(database_settings: &DatabaseSettings) -> (r: Vec<String>)
        ensures
            r.deep_view() =~~= seq![
                pkey_rename_statement(*database_settings),
                fk_rename_statement(*database_settings),
                index_rename_statement(*database_settings),
                geom_index_rename_statement(*database_settings),
            ],
    {
        let mut out: Vec<String> = Vec::new();
        let mut p: String = "ALTER TABLE ".to_owned();
        p.append(database_settings.schema.as_str());
        p.append(".");
        p.append(database_settings.dataset_table.as_str());
        p.append(" RENAME CONSTRAINT ");
        p.append(database_settings.temp_dataset_table.as_str());
        p.append("_pkey TO ");
        p.append(database_settings.dataset_table.as_str());
        p.append("_pkey;");
        proof {
            assert(p@ =~= pkey_rename_statement(*database_settings));
        }
        out.push(p);
        let mut f: String = "ALTER TABLE ".to_owned();
        f.append(database_settings.schema.as_str());
        f.append(".");
        f.append(database_settings.unit_table.as_str());
        f.append(" RENAME CONSTRAINT ");
        f.append(database_settings.temp_unit_table.as_str());
        f.append("_");
        f.append(database_settings.surrogate_key_column.as_str());
        f.append("_fk TO ");
        f.append(database_settings.unit_table.as_str());
        f.append("_");
        f.append(database_settings.surrogate_key_column.as_str());
        f.append("_fk;");
        proof {
            assert(f@ =~= fk_rename_statement(*database_settings));
        }
        out.push(f);
        let mut x: String = "ALTER INDEX ".to_owned();
        x.append(database_settings.schema.as_str());
        x.append(".");
        x.append(database_settings.temp_unit_table.as_str());
        x.append("_idx RENAME TO ");
        x.append(database_settings.unit_table.as_str());
        x.append("_idx;");
        proof {
            assert(x@ =~= index_rename_statement(*database_settings));
        }
        out.push(x);
        let mut g: String = "ALTER INDEX ".to_owned();
        g.append(database_settings.schema.as_str());
        g.append(".");
        g.append(database_settings.temp_unit_table.as_str());
        g.append("_geom_idx RENAME TO ");
        g.append(database_settings.unit_table.as_str());
        g.append("_geom_idx;");
        proof {
            assert(g@ =~= geom_index_rename_statement(*database_settings));
        }
        out.push(g);
        out
    }

    /// The first field of a list carrying a path, by its hash.
    fn find_first_hash(fields: &Vec<Field>, target: &str) -> (r: Option<String>)
        ensures
            match r {
                Some(h) => first_hash_for(fields.deep_view(), target@) == Some(h@),
                None => first_hash_for(fields.deep_view(), target@) is None,
            },
    {
        let n = fields.len();
        let mut i: usize = 0;
        proof {
            assert(fields.deep_view().skip(0) =~= fields.deep_view());
        }
        while i < n
            invariant
                i <= n,
                n == fields@.len(),
                first_hash_for(fields.deep_view(), target@) == first_hash_for(
                    fields.deep_view().skip(i as int),
                    target@,
                ),
            decreases n - i,
        {
            let ghost rest = fields.deep_view().skip(i as int);
            proof {
                assert(rest.len() > 0);
                assert(rest.first() == fields.deep_view()[i as int]);
                assert(rest.drop_first() =~= fields.deep_view().skip(i + 1));
            }
            if crate::strutil::str_eq_str(fields[i].name.as_str(), target) {
                return Some(fields[i].hash.clone());
            }
            i += 1;
        }
        proof {
            assert(fields.deep_view().skip(n as int) =~= Seq::<FieldValue>::empty());
        }
        None
    }

    /// The statement creating the listing view: one row per dataset with
    /// its link, title, id, provider and whether any of its units carries
    /// both coordinates.
    pub fn create_listing_view(
        database_settings: &DatabaseSettings,
        dataset_fields: &Vec<Field>,
        unit_fields: &Vec<Field>,
    ) -> (r: String)
        ensures
            r@ == listing_view_statement(
                *database_settings,
                dataset_fields.deep_view(),
                unit_fields.deep_view(),
            ),
    {
        let dataset_title: String = match Self::find_first_hash(
            dataset_fields,
            "/DataSets/DataSet/Metadata/Description/Representation/Title",
        ) {
            Some(h) => {
                let mut t: String = "\"".to_owned();
                t.append(h.as_str());
                t.append("\"");
                t
            },
            None => "''".to_owned(),
        };
        let latitude_column: String = match Self::find_first_hash(
            unit_fields,
            "/DataSets/DataSet/Units/Unit/Gathering/SiteCoordinateSets/SiteCoordinates/CoordinatesLatLong/LatitudeDecimal",
        ) {
            Some(h) => {
                let mut t: String = "\"".to_owned();
                t.append(h.as_str());
                t.append("\"");
                t
            },
            None => "NULL".to_owned(),
        };
        let longitude_column: String = match Self::find_first_hash(
            unit_fields,
            "/DataSets/DataSet/Units/Unit/Gathering/SiteCoordinateSets/SiteCoordinates/CoordinatesLatLong/LongitudeDecimal",
        ) {
            Some(h) => {
                let mut t: String = "\"".to_owned();
                t.append(h.as_str());
                t.append("\"");
                t
            },
            None => "NULL".to_owned(),
        };
        let mut v: String = "\n            CREATE VIEW ".to_owned();
        v.append(database_settings.schema.as_str());
        v.append(".");
        v.append(database_settings.listing_view.as_str());
        v.append(
            " AS (\n            select link, dataset, id, provider, isGeoReferenced as available, isGeoReferenced\n            from (\n                   select ",
        );
        v.append(database_settings.dataset_landing_page_column.as_str());
        v.append(" as link,\n                          ");
        v.append(dataset_title.as_str());
        v.append("               as dataset,\n                          ");
        v.append(database_settings.dataset_id_column.as_str());
        v.append("           as id,\n                          ");
        v.append(database_settings.dataset_provider_column.as_str());
        v.append(
            "     as provider,\n                          (SELECT EXISTS(\n                              select * from ",
        );
        v.append(database_settings.schema.as_str());
        v.append(".");
        v.append(database_settings.unit_table.as_str());
        v.append("\n                              where ");
        v.append(database_settings.dataset_table.as_str());
        v.append(".");
        v.append(database_settings.surrogate_key_column.as_str());
        v.append(" = ");
        v.append(database_settings.unit_table.as_str());
        v.append(".");
        v.append(database_settings.surrogate_key_column.as_str());
        v.append("\n                                and ");
        v.append(latitude_column.as_str());
        v.append(" is not null\n                                and ");
        v.append(longitude_column.as_str());
        v.append(
            " is not null\n                            ))                 as isGeoReferenced\n                   from ",
        );
        v.append(database_settings.schema.as_str());
        v.append(".");
        v.append(database_settings.dataset_table.as_str());
        v.append("\n            ) sub);");
        proof {
            assert(v@ =~= listing_view_statement(
                *database_settings,
                dataset_fields.deep_view(),
                unit_fields.deep_view(),
            ));
        }
        v
    }

    /// The plan that publishes the schema: indexes and statistics first,
    /// then, inside one serializable transaction, dropping the old tables,
    /// renaming the temporary ones with their constraints and indexes, and
    /// creating the listing view.
    pub fn migrate_schema(&self, database_settings: &DatabaseSettings) -> (r: MigrationPlan)
        ensures
            r.before.deep_view() =~~= seq![
                foreign_key_statement(*database_settings),
                unit_index_statement(*database_settings),
                geom_index_statement(*database_settings),
                cluster_statement(*database_settings),
                vacuum_statement(
                    database_settings.schema@,
                    database_settings.temp_dataset_table@,
                ),
                vacuum_statement(database_settings.schema@, database_settings.temp_unit_table@),
            ],
            r.within_transaction.deep_view() =~~= seq![
                drop_view_statement(database_settings.schema@, database_settings.listing_view@),
                drop_table_statement(database_settings.schema@, database_settings.unit_table@),
                drop_table_statement(database_settings.schema@, database_settings.dataset_table@),
                drop_table_statement(
                    database_settings.schema@,
                    translation_table_of(database_settings.dataset_table@),
                ),
                rename_table_statement(
                    database_settings.schema@,
                    database_settings.temp_unit_table@,
                    database_settings.unit_table@,
                ),
                rename_table_statement(
                    database_settings.schema@,
                    database_settings.temp_dataset_table@,
                    database_settings.dataset_table@,
                ),
                rename_table_statement(
                    database_settings.schema@,
                    translation_table_of(database_settings.temp_dataset_table@),
                    translation_table_of(database_settings.dataset_table@),
                ),
                pkey_rename_statement(*database_settings),
                fk_rename_statement(*database_settings),
                index_rename_statement(*database_settings),
                geom_index_rename_statement(*database_settings),
                listing_view_statement(
                    *database_settings,
                    self.spec_dataset_fields(),
                    self.spec_unit_fields(),
                ),
            ],
    {
        let before = Self::create_indexes_and_statistics(database_settings);
        let mut within_transaction = Self::drop_old_tables(database_settings);
        let ghost p0 = within_transaction.deep_view();
        let mut renames = Self::rename_temporary_tables(database_settings);
        let ghost p1 = renames.deep_view();
        within_transaction.append(&mut renames);
        proof {
            assert(within_transaction.deep_view() =~~= p0 + p1);
        }
        let mut constraint_renames = Self::rename_constraints_and_indexes(database_settings);
        let ghost p2 = constraint_renames.deep_view();
        within_transaction.append(&mut constraint_renames);
        proof {
            assert(within_transaction.deep_view() =~~= p0 + p1 + p2);
        }
        within_transaction.push(
            Self::create_listing_view(database_settings, &self.dataset_fields, &self.unit_fields),
        );
        proof {
            assert(within_transaction.deep_view() =~~= p0 + p1 + p2 + seq![
                listing_view_statement(
                    *database_settings,
                    self.spec_dataset_fields(),
                    self.spec_unit_fields(),
                ),
            ]);
        }
        MigrationPlan { before, within_transaction }
    }
}

/// How often a value occurs in a list.
pub open spec fn occurrences(s: Seq<Seq<char>>, x: Seq<char>) -> nat
    decreases s.len(),
{
    if s.len() == 0 {
        0
    } else {
        occurrences(s.drop_last(), x) + (if s.last() == x {
            1nat
        } else {
            0nat
        })
    }
}

/// The column identifiers of a run of schema fields.
pub open spec fn hashes_of(fields: Seq<FieldValue>) -> Seq<Seq<char>> {
    fields.map(|i: int, f: FieldValue| f.hash)
}

/// Whether no two dictionary entries share a column identifier.
pub open spec fn distinct_hashes(dict: Seq<AbcdFieldValue>) -> bool {
    forall|k: int, l: int|
        0 <= k < l < dict.len() ==> column_hash_of((#[trigger] dict[k]).name) != column_hash_of(
            (#[trigger] dict[l]).name,
        )
}

proof fn lemma_occ_push(s: Seq<Seq<char>>, h: Seq<char>, x: Seq<char>)
    ensures
        occurrences(s.push(h), x) == occurrences(s, x) + (if h == x {
            1nat
        } else {
            0nat
        }),
{
    assert(s.push(h).drop_last() =~= s);
    assert(s.push(h).last() == h);
}

proof fn lemma_occ_global_absent(dict: Seq<AbcdFieldValue>, x: Seq<char>)
    requires
        forall|k: int| 0 <= k < dict.len() ==> column_hash_of((#[trigger] dict[k]).name) != x,
    ensures
        occurrences(hashes_of(fields_for(global_fields(dict))), x) == 0,
    decreases dict.len(),
{
    if dict.len() == 0 {
        assert(hashes_of(fields_for(global_fields(dict))).len() == 0);
    } else {
        let pre = dict.drop_last();
        lemma_occ_global_absent(pre, x);
        if dict.last().global_field {
            let h = column_hash_of(dict.last().name);
            assert(global_fields(dict) =~= global_fields(pre).push(dict.last()));
            assert(hashes_of(fields_for(global_fields(dict))) =~= hashes_of(
                fields_for(global_fields(pre)),
            ).push(h));
            lemma_occ_push(hashes_of(fields_for(global_fields(pre))), h, x);
        } else {
            assert(global_fields(dict) =~= global_fields(pre));
        }
    }
}

proof fn lemma_occ_nonglobal_absent(dict: Seq<AbcdFieldValue>, x: Seq<char>)
    requires
        forall|k: int| 0 <= k < dict.len() ==> column_hash_of((#[trigger] dict[k]).name) != x,
    ensures
        occurrences(hashes_of(fields_for(nonglobal_fields(dict))), x) == 0,
    decreases dict.len(),
{
    if dict.len() == 0 {
        assert(hashes_of(fields_for(nonglobal_fields(dict))).len() == 0);
    } else {
        let pre = dict.drop_last();
        lemma_occ_nonglobal_absent(pre, x);
        if !dict.last().global_field {
            let h = column_hash_of(dict.last().name);
            assert(nonglobal_fields(dict) =~= nonglobal_fields(pre).push(dict.last()));
            assert(hashes_of(fields_for(nonglobal_fields(dict))) =~= hashes_of(
                fields_for(nonglobal_fields(pre)),
            ).push(h));
            lemma_occ_push(hashes_of(fields_for(nonglobal_fields(pre))), h, x);
        } else {
            assert(nonglobal_fields(dict) =~= nonglobal_fields(pre));
        }
    }
}

/// Each dictionary field owns exactly one hashed column, and it stands in
/// the table its level calls for: the dataset table for a dataset-level
/// field, the unit table for a unit-level one, and never in the other.
/// Distinct column identifiers are assumed: a digest collision between two
/// paths would fold their columns together.
pub proof fn lemma_one_column_per_field(dict: Seq<AbcdFieldValue>, i: int)
    requires
        0 <= i < dict.len(),
        distinct_hashes(dict),
    ensures
        dict[i].global_field ==> occurrences(
            hashes_of(fields_for(global_fields(dict))),
            column_hash_of(dict[i].name),
        ) == 1 && occurrences(
            hashes_of(fields_for(nonglobal_fields(dict))),
            column_hash_of(dict[i].name),
        ) == 0,
        !dict[i].global_field ==> occurrences(
            hashes_of(fields_for(nonglobal_fields(dict))),
            column_hash_of(dict[i].name),
        ) == 1 && occurrences(
            hashes_of(fields_for(global_fields(dict))),
            column_hash_of(dict[i].name),
        ) == 0,
    decreases dict.len(),
{
    let h = column_hash_of(dict[i].name);
    let pre = dict.drop_last();
    if i == dict.len() - 1 {
        assert(forall|k: int|
            0 <= k < pre.len() ==> column_hash_of((#[trigger] pre[k]).name) != h);
        lemma_occ_global_absent(pre, h);
        lemma_occ_nonglobal_absent(pre, h);
        if dict.last().global_field {
            assert(global_fields(dict) =~= global_fields(pre).push(dict.last()));
            assert(hashes_of(fields_for(global_fields(dict))) =~= hashes_of(
                fields_for(global_fields(pre)),
            ).push(h));
            lemma_occ_push(hashes_of(fields_for(global_fields(pre))), h, h);
            assert(nonglobal_fields(dict) =~= nonglobal_fields(pre));
        } else {
            assert(nonglobal_fields(dict) =~= nonglobal_fields(pre).push(dict.last()));
            assert(hashes_of(fields_for(nonglobal_fields(dict))) =~= hashes_of(
                fields_for(nonglobal_fields(pre)),
            ).push(h));
            lemma_occ_push(hashes_of(fields_for(nonglobal_fields(pre))), h, h);
            assert(global_fields(dict) =~= global_fields(pre));
        }
    } else {
        assert(forall|k: int, l: int|
            0 <= k < l < pre.len() ==> column_hash_of((#[trigger] pre[k]).name) != column_hash_of(
                (#[trigger] pre[l]).name,
            ));
        lemma_one_column_per_field(pre, i);
        assert(pre[i] == dict[i]);
        if dict.last().global_field {
            assert(global_fields(dict) =~= global_fields(pre).push(dict.last()));
            assert(hashes_of(fields_for(global_fields(dict))) =~= hashes_of(
                fields_for(global_fields(pre)),
            ).push(column_hash_of(dict.last().name)));
            assert(nonglobal_fields(dict) =~= nonglobal_fields(pre));
            assert(column_hash_of(dict.last().name) != h);
            lemma_occ_push(
                hashes_of(fields_for(global_fields(pre))),
                column_hash_of(dict.last().name),
                h,
            );
        } else {
            assert(nonglobal_fields(dict) =~= nonglobal_fields(pre).push(dict.last()));
            assert(hashes_of(fields_for(nonglobal_fields(dict))) =~= hashes_of(
                fields_for(nonglobal_fields(pre)),
            ).push(column_hash_of(dict.last().name)));
            assert(global_fields(dict) =~= global_fields(pre));
            assert(column_hash_of(dict.last().name) != h);
            lemma_occ_push(
                hashes_of(fields_for(nonglobal_fields(pre))),
                column_hash_of(dict.last().name),
                h,
            );
        }
    }
}

/// Every translation row's hash names a column of the dataset or the unit
/// table: the row for a dataset-level field names a dataset column, the
/// row for a unit-level field a unit column.
pub proof fn lemma_translation_hash_is_a_column(
    s: DatabaseSettings,
    dict: Seq<AbcdFieldValue>,
    k: int,
)
    requires
        0 <= k < fields_for(global_fields(dict)).len() + fields_for(nonglobal_fields(dict)).len(),
    ensures
        ({
            let rows = fields_for(global_fields(dict)) + fields_for(nonglobal_fields(dict));
            let dcols = dataset_columns(s, fields_for(global_fields(dict)));
            let ucols = unit_columns(s, fields_for(nonglobal_fields(dict)));
            &&& k < fields_for(global_fields(dict)).len() ==> exists|j: int|
                0 <= j < dcols.len() && (#[trigger] dcols[j]) == rows[k].hash
            &&& k >= fields_for(global_fields(dict)).len() ==> exists|j: int|
                0 <= j < ucols.len() && (#[trigger] ucols[j]) == rows[k].hash
        }),
{
    let dsf = fields_for(global_fields(dict));
    let usf = fields_for(nonglobal_fields(dict));
    let rows = dsf + usf;
    let dcols = dataset_columns(s, dsf);
    let ucols = unit_columns(s, usf);
    if k < dsf.len() {
        assert(dcols[5 + k] == rows[k].hash);
    } else {
        assert(ucols[1 + (k - dsf.len())] == rows[k].hash);
    }
}

/// Every unit row of a result begins with the same surrogate key that the
/// dataset row carries: the key assigned to the dataset's external id.
pub proof fn lemma_units_share_surrogate_key(
    key: nat,
    dataset_id: Seq<char>,
    dataset_path: Seq<char>,
    landing_page: Seq<char>,
    provider_name: Seq<char>,
    dataset_fields: Seq<FieldValue>,
    unit_fields: Seq<FieldValue>,
    dataset: Map<Seq<char>, VatValue>,
    units: Seq<Map<Seq<char>, VatValue>>,
    i: int,
)
    requires
        0 <= i < units.len(),
    ensures
        dataset_row_fields(
            key,
            dataset_id,
            dataset_path,
            landing_page,
            provider_name,
            dataset_fields,
            dataset,
        )[0] == dec_of(key),
        unit_row_fields(key, unit_fields, units[i])[0] == dec_of(key),
{
}

/// A second insert of an external id adds no dataset row: after the first
/// insert the id is bound to its key, and an id bound to a key keeps it.
pub proof fn lemma_second_insert_reuses_key(keys: Map<Seq<char>, u32>, id: Seq<char>, key: u32)
    requires
        !keys.contains_key(id),
    ensures
        keys.insert(id, key).contains_key(id),
        keys.insert(id, key)[id] == key,
{
}

/// A unit row's `geom` column is filled exactly where both coordinate
/// fields are in the schema and both are present in the unit; everywhere
/// else it stays empty, which the COPY options read as NULL.
pub proof fn lemma_geom_iff_coordinates(fields: Seq<FieldValue>, m: Map<Seq<char>, VatValue>)
    ensures
        geom_of(fields, m).len() > 0 <==> (contains_name(fields, longitude_path())
            && contains_name(fields, latitude_path()) && m.contains_key(longitude_path())
            && m.contains_key(latitude_path())),
{
    reveal_strlit("POINT(");
}

/// Two runs that assign different surrogate keys to a dataset produce the
/// same rows apart from the key column: every other field of a dataset or
/// unit row is independent of the key.
pub proof fn lemma_rows_equal_modulo_key(
    k1: nat,
    k2: nat,
    dataset_id: Seq<char>,
    dataset_path: Seq<char>,
    landing_page: Seq<char>,
    provider_name: Seq<char>,
    fields: Seq<FieldValue>,
    m: Map<Seq<char>, VatValue>,
)
    ensures
        ({
            let r1 = dataset_row_fields(
                k1,
                dataset_id,
                dataset_path,
                landing_page,
                provider_name,
                fields,
                m,
            );
            let r2 = dataset_row_fields(
                k2,
                dataset_id,
                dataset_path,
                landing_page,
                provider_name,
                fields,
                m,
            );
            r1.len() == r2.len() && forall|j: int| 1 <= j < r1.len() ==> r1[j] == r2[j]
        }),
        ({
            let u1 = unit_row_fields(k1, fields, m);
            let u2 = unit_row_fields(k2, fields, m);
            u1.len() == u2.len() && forall|j: int| 1 <= j < u1.len() ==> u1[j] == u2[j]
        }),
{
}

/// With no indexed unit columns configured, the B-tree index covers the
/// surrogate key alone.
pub proof fn lemma_empty_index_list_covers_key_alone(s: DatabaseSettings)
    requires
        s.unit_indexed_columns@.len() == 0,
    ensures
        unit_index_statement(s) == "CREATE INDEX "@ + s.temp_unit_table@ + "_idx ON "@ + s.schema@
            + "."@ + s.temp_unit_table@ + " USING btree ("@ + s.surrogate_key_column@ + " "@
            + ");"@,
{
    assert(indexed_column_hashes(s).len() == 0);
    assert(unit_index_statement(s) =~= "CREATE INDEX "@ + s.temp_unit_table@ + "_idx ON "@
        + s.schema@ + "."@ + s.temp_unit_table@ + " USING btree ("@ + s.surrogate_key_column@
        + " "@ + ");"@);
}

} // verus!

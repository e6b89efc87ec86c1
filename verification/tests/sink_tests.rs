use vat_abcd_crawler::abcd_fields::AbcdField;
use vat_abcd_crawler::abcd_fields::AbcdFields;
use vat_abcd_crawler::abcd_parser::AbcdResult;
use vat_abcd_crawler::database_sink::DatabaseSink;
use vat_abcd_crawler::field::Field;
use vat_abcd_crawler::settings::DatabaseSettings;
use vat_abcd_crawler::value_map::ValueMap;
use vat_abcd_crawler::vat_type::VatType;

const TITLE_PATH: &str = "/DataSets/DataSet/Metadata/Description/Representation/Title";
const LATITUDE_PATH: &str = "/DataSets/DataSet/Units/Unit/Gathering/SiteCoordinateSets/SiteCoordinates/CoordinatesLatLong/LatitudeDecimal";
const LONGITUDE_PATH: &str = "/DataSets/DataSet/Units/Unit/Gathering/SiteCoordinateSets/SiteCoordinates/CoordinatesLatLong/LongitudeDecimal";

fn database_settings() -> DatabaseSettings {
    DatabaseSettings {
        host: "localhost".to_string(),
        port: 5432,
        tls: false,
        database: "vat".to_string(),
        user: "user".to_string(),
        password: "SECRET-REDACTED".to_string(),
        schema: "pg_temp".to_string(),
        dataset_table: "abcd_datasets".to_string(),
        listing_view: "dataset_listing".to_string(),
        temp_dataset_table: "abcd_datasets_temp".to_string(),
        surrogate_key_column: "surrogate_key".to_string(),
        dataset_id_column: "dataset_id".to_string(),
        dataset_path_column: "dataset_path".to_string(),
        dataset_landing_page_column: "dataset_landing_page".to_string(),
        dataset_provider_column: "dataset_provider".to_string(),
        unit_table: "abcd_units".to_string(),
        temp_unit_table: "abcd_units_temp".to_string(),
        unit_indexed_columns: vec![],
    }
}

fn field(name: &str, numeric: bool, global_field: bool) -> AbcdField {
    AbcdField {
        name: name.to_string(),
        numeric,
        vat_mandatory: false,
        gfbio_mandatory: true,
        global_field,
        unit: "".to_string(),
    }
}

fn four_field_dictionary() -> AbcdFields {
    AbcdFields::fields_to_map(&vec![
        field("DS_TEXT", false, true),
        field("DS_NUM", true, true),
        field("UNIT_TEXT", false, false),
        field("UNIT_NUM", true, false),
    ])
}

fn sample_result(unit_values: Vec<Vec<(&str, VatType)>>) -> AbcdResult {
    let mut dataset = ValueMap::new();
    dataset.insert("DS_TEXT".to_string(), VatType::Textual("FOOBAR".to_string()));
    dataset.insert("DS_NUM".to_string(), VatType::Numeric("42".to_string()));
    let mut units = Vec::new();
    for values in unit_values {
        let mut unit = ValueMap::new();
        for (key, value) in values {
            unit.insert(key.to_string(), value);
        }
        units.push(unit);
    }
    AbcdResult::new(
        "TEST_ID".to_string(),
        "TEST_PATH".to_string(),
        "TEST_LANDING_PAGE".to_string(),
        "TEST_PROVIDER".to_string(),
        dataset,
        units,
    )
}

#[test]
fn schema_creation_leads_to_required_tables() {
    let settings = database_settings();
    let abcd_fields = AbcdFields::fields_to_map(&vec![]);
    let sink = DatabaseSink::new(&settings, &abcd_fields);

    let plan = sink.initialize_temporary_schema(&settings, &abcd_fields).unwrap();

    assert_eq!(plan.statements.len(), 6);
    assert_eq!(plan.statements[0], "DROP TABLE IF EXISTS pg_temp.abcd_units_temp;");
    assert_eq!(plan.statements[1], "DROP TABLE IF EXISTS pg_temp.abcd_datasets_temp;");
    assert_eq!(
        plan.statements[2],
        "DROP TABLE IF EXISTS pg_temp.abcd_datasets_temp_translation;"
    );
    assert!(plan.statements[3].starts_with("CREATE TABLE pg_temp.abcd_datasets_temp ( "));
    assert!(plan.statements[4].starts_with("CREATE TABLE pg_temp.abcd_units_temp ( "));
    assert_eq!(
        plan.statements[5],
        "create table pg_temp.abcd_datasets_temp_translation (name text not null, hash text not null);"
    );
    assert_eq!(
        plan.translation_insert,
        "insert into pg_temp.abcd_datasets_temp_translation(name, hash) VALUES ($1, $2);"
    );
}

#[test]
fn schema_creation_leads_to_required_columns_in_dataset_table() {
    let settings = database_settings();
    let abcd_fields = four_field_dictionary();
    let sink = DatabaseSink::new(&settings, &abcd_fields);

    let plan = sink.initialize_temporary_schema(&settings, &abcd_fields).unwrap();
    let dataset_statement = &plan.statements[3];

    assert!(dataset_statement.contains("surrogate_key int primary key"));
    assert!(dataset_statement.contains("dataset_id text not null"));
    assert!(dataset_statement.contains("dataset_path text not null"));
    assert!(dataset_statement.contains("dataset_landing_page text not null"));
    assert!(dataset_statement.contains("dataset_provider text not null"));
    assert!(dataset_statement.contains(&format!("\"{}\" text", Field::new("DS_TEXT").hash)));
    assert!(
        dataset_statement.contains(
            &format!("\"{}\" double precision", Field::new("DS_NUM").hash),
        )
    );
    assert!(!dataset_statement.contains(&Field::new("UNIT_TEXT").hash));
}

#[test]
fn schema_creation_leads_to_required_columns_in_unit_table() {
    let settings = database_settings();
    let abcd_fields = four_field_dictionary();
    let sink = DatabaseSink::new(&settings, &abcd_fields);

    let plan = sink.initialize_temporary_schema(&settings, &abcd_fields).unwrap();
    let unit_statement = &plan.statements[4];

    assert!(unit_statement.contains("surrogate_key int not null"));
    assert!(unit_statement.contains("geom geometry(Point)"));
    assert!(unit_statement.contains(&format!("\"{}\" text", Field::new("UNIT_TEXT").hash)));
    assert!(
        unit_statement.contains(&format!("\"{}\" double precision", Field::new("UNIT_NUM").hash)),
    );
    assert!(!unit_statement.contains(&Field::new("DS_TEXT").hash));
}

#[test]
fn translation_table_contains_entries() {
    let settings = database_settings();
    let abcd_fields = four_field_dictionary();
    let sink = DatabaseSink::new(&settings, &abcd_fields);

    let plan = sink.initialize_temporary_schema(&settings, &abcd_fields).unwrap();

    let mut names: Vec<String> =
        plan.translation_rows.iter().map(|row| row.name.clone()).collect();
    names.sort();
    assert_eq!(names, vec!["DS_NUM", "DS_TEXT", "UNIT_NUM", "UNIT_TEXT"]);
}

#[test]
fn translation_table_entries_match_table_columns() {
    let settings = database_settings();
    let abcd_fields = four_field_dictionary();
    let sink = DatabaseSink::new(&settings, &abcd_fields);

    let plan = sink.initialize_temporary_schema(&settings, &abcd_fields).unwrap();
    let dataset_statement = &plan.statements[3];
    let unit_statement = &plan.statements[4];

    for row in &plan.translation_rows {
        assert_eq!(row.hash, Field::new(&row.name).hash);
        assert!(
            dataset_statement.contains(&row.hash) || unit_statement.contains(&row.hash),
            "hash of {} is not a column",
            row.name,
        );
    }
}

#[test]
fn dataset_table_contains_entry_after_insert() {
    let settings = database_settings();
    let abcd_fields = four_field_dictionary();
    let mut sink = DatabaseSink::new(&settings, &abcd_fields);

    let commands = sink.insert_dataset(
        &settings,
        &sample_result(vec![
            vec![
                ("UNIT_TEXT", VatType::Textual("FOO".to_string())),
                ("UNIT_NUM", VatType::Numeric("13".to_string())),
            ],
            vec![
                ("UNIT_TEXT", VatType::Textual("BAR".to_string())),
                ("UNIT_NUM", VatType::Numeric("37".to_string())),
            ],
        ]),
    );

    assert_eq!(commands.len(), 2);

    let dataset_command = &commands[0];
    assert!(dataset_command.statement.starts_with("COPY pg_temp.abcd_datasets_temp(\""));
    assert!(dataset_command.statement.contains("surrogate_key\",\"dataset_id"));
    assert_eq!(dataset_command.payload.matches('\n').count(), 1);
    assert!(dataset_command.payload.starts_with("1\tTEST_ID\tTEST_PATH\tTEST_LANDING_PAGE\tTEST_PROVIDER"));
    assert!(dataset_command.payload.contains("FOOBAR"));
    assert!(dataset_command.payload.contains("42"));

    let unit_command = &commands[1];
    assert!(unit_command.statement.starts_with("COPY pg_temp.abcd_units_temp(\""));
    assert_eq!(unit_command.payload.matches('\n').count(), 2);
    assert!(unit_command.payload.contains("FOO"));
    assert!(unit_command.payload.contains("13"));
    assert!(unit_command.payload.contains("BAR"));
    assert!(unit_command.payload.contains("37"));
    for line in unit_command.payload.lines() {
        assert!(line.starts_with("1\t"), "unit row does not carry the dataset key: {}", line);
    }
}

#[test]
fn second_insert_of_same_dataset_does_not_lead_to_second_entry_in_dataset_table() {
    let settings = database_settings();
    let abcd_fields = four_field_dictionary();
    let mut sink = DatabaseSink::new(&settings, &abcd_fields);

    let first = sink.insert_dataset(
        &settings,
        &sample_result(vec![vec![
            ("UNIT_TEXT", VatType::Textual("FOO".to_string())),
            ("UNIT_NUM", VatType::Numeric("13".to_string())),
        ]]),
    );
    let second = sink.insert_dataset(
        &settings,
        &sample_result(vec![vec![
            ("UNIT_TEXT", VatType::Textual("BAR".to_string())),
            ("UNIT_NUM", VatType::Numeric("37".to_string())),
        ]]),
    );

    assert_eq!(first.len(), 2);
    assert_eq!(second.len(), 1);
    assert!(second[0].statement.starts_with("COPY pg_temp.abcd_units_temp(\""));
    assert!(second[0].payload.starts_with("1\t"));
    assert_eq!(
        first[1].payload.matches('\n').count() + second[0].payload.matches('\n').count(),
        2,
    );
}

#[test]
fn correct_tables_after_schema_migration() {
    let settings = database_settings();
    let abcd_fields = AbcdFields::fields_to_map(&vec![]);
    let sink = DatabaseSink::new(&settings, &abcd_fields);

    let plan = sink.migrate_schema(&settings);

    assert_eq!(plan.before.len(), 6);
    assert!(plan.before[0].contains("ADD CONSTRAINT abcd_units_temp_surrogate_key_fk"));
    assert_eq!(
        plan.before[1],
        "CREATE INDEX abcd_units_temp_idx ON pg_temp.abcd_units_temp USING btree (surrogate_key );"
    );
    assert!(plan.before[2].contains("USING SPGIST (geom);"));
    assert_eq!(plan.before[3], "CLUSTER abcd_units_temp_idx ON pg_temp.abcd_units_temp;");
    assert_eq!(plan.before[4], "VACUUM ANALYZE pg_temp.abcd_datasets_temp;");
    assert_eq!(plan.before[5], "VACUUM ANALYZE pg_temp.abcd_units_temp;");

    assert_eq!(plan.within_transaction.len(), 12);
    assert_eq!(plan.within_transaction[0], "DROP VIEW IF EXISTS pg_temp.dataset_listing;");
    assert_eq!(plan.within_transaction[1], "DROP TABLE IF EXISTS pg_temp.abcd_units;");
    assert_eq!(plan.within_transaction[2], "DROP TABLE IF EXISTS pg_temp.abcd_datasets;");
    assert_eq!(
        plan.within_transaction[3],
        "DROP TABLE IF EXISTS pg_temp.abcd_datasets_translation;"
    );
    assert_eq!(
        plan.within_transaction[4],
        "ALTER TABLE pg_temp.abcd_units_temp RENAME TO abcd_units;"
    );
    assert_eq!(
        plan.within_transaction[5],
        "ALTER TABLE pg_temp.abcd_datasets_temp RENAME TO abcd_datasets;"
    );
    assert_eq!(
        plan.within_transaction[6],
        "ALTER TABLE pg_temp.abcd_datasets_temp_translation RENAME TO abcd_datasets_translation;"
    );
    assert!(plan.within_transaction[7].contains("RENAME CONSTRAINT abcd_datasets_temp_pkey"));
    assert!(plan.within_transaction[8].contains("RENAME CONSTRAINT abcd_units_temp_surrogate_key_fk"));
    assert!(plan.within_transaction[9].contains("ALTER INDEX pg_temp.abcd_units_temp_idx"));
    assert!(plan.within_transaction[10].contains("ALTER INDEX pg_temp.abcd_units_temp_geom_idx"));
    assert!(plan.within_transaction[11].contains("CREATE VIEW pg_temp.dataset_listing"));
}

#[test]
fn listing_view_binds_title_and_coordinates() {
    let settings = database_settings();
    let abcd_fields = AbcdFields::fields_to_map(&vec![
        field(TITLE_PATH, false, true),
        field(LATITUDE_PATH, true, false),
        field(LONGITUDE_PATH, true, false),
    ]);
    let sink = DatabaseSink::new(&settings, &abcd_fields);

    let plan = sink.migrate_schema(&settings);
    let view = &plan.within_transaction[11];

    assert!(view.contains(&format!("\"{}\"               as dataset", Field::new(TITLE_PATH).hash)));
    assert!(view.contains(&format!("\"{}\" is not null", Field::new(LATITUDE_PATH).hash)));
    assert!(view.contains(&format!("\"{}\" is not null", Field::new(LONGITUDE_PATH).hash)));
    assert!(view.contains("isGeoReferenced as available"));
    assert!(view.contains("dataset_landing_page as link"));
    assert!(view.contains("dataset_id           as id"));
    assert!(view.contains("dataset_provider     as provider"));
}

#[test]
fn listing_view_without_title_field_uses_empty_string() {
    let settings = database_settings();
    let dataset_fields: Vec<Field> = vec![];
    let unit_fields: Vec<Field> = vec![];

    let view = DatabaseSink::create_listing_view(&settings, &dataset_fields, &unit_fields);

    assert!(view.contains("''               as dataset"));
    assert!(view.contains("NULL is not null"));
}

#[test]
fn geom_column_filled_exactly_when_both_coordinates_present() {
    let settings = database_settings();
    let abcd_fields = AbcdFields::fields_to_map(&vec![
        field(LATITUDE_PATH, true, false),
        field(LONGITUDE_PATH, true, false),
    ]);
    let mut sink = DatabaseSink::new(&settings, &abcd_fields);

    let mut dataset = ValueMap::new();
    dataset.insert("ignored".to_string(), VatType::Textual("x".to_string()));
    let mut both = ValueMap::new();
    both.insert(LATITUDE_PATH.to_string(), VatType::Numeric("10".to_string()));
    both.insert(LONGITUDE_PATH.to_string(), VatType::Numeric("20".to_string()));
    let mut only_one = ValueMap::new();
    only_one.insert(LATITUDE_PATH.to_string(), VatType::Numeric("10".to_string()));

    let result = AbcdResult::new(
        "GEO_ID".to_string(),
        "GEO_PATH".to_string(),
        "GEO_LANDING".to_string(),
        "GEO_PROVIDER".to_string(),
        dataset,
        vec![both, only_one],
    );

    let commands = sink.insert_dataset(&settings, &result);
    let unit_payload = &commands[1].payload;
    let lines: Vec<&str> = unit_payload.lines().collect();
    assert_eq!(lines.len(), 2);
    assert!(lines[0].ends_with("POINT(20 10)"));
    assert!(lines[1].ends_with('\t'));
    assert!(!lines[1].contains("POINT"));
}

#[test]
fn rerunning_with_identical_inputs_gives_identical_plans() {
    let settings = database_settings();
    let abcd_fields = four_field_dictionary();

    let sink1 = DatabaseSink::new(&settings, &abcd_fields);
    let sink2 = DatabaseSink::new(&settings, &abcd_fields);

    let plan1 = sink1.initialize_temporary_schema(&settings, &abcd_fields).unwrap();
    let plan2 = sink2.initialize_temporary_schema(&settings, &abcd_fields).unwrap();
    assert_eq!(plan1.statements, plan2.statements);

    let migration1 = sink1.migrate_schema(&settings);
    let migration2 = sink2.migrate_schema(&settings);
    assert_eq!(migration1.before, migration2.before);
    assert_eq!(migration1.within_transaction, migration2.within_transaction);
}

#[test]
fn text_with_delimiter_or_quote_is_quoted_in_the_payload() {
    let settings = database_settings();
    let abcd_fields = four_field_dictionary();
    let mut sink = DatabaseSink::new(&settings, &abcd_fields);

    let commands = sink.insert_dataset(
        &settings,
        &sample_result(vec![vec![(
            "UNIT_TEXT",
            VatType::Textual("tricky\tvalue \"quoted\"".to_string()),
        )]]),
    );

    let unit_payload = &commands[1].payload;
    assert!(unit_payload.contains("\"tricky\tvalue \"\"quoted\"\"\""));
}

use vat_abcd_crawler::abcd_fields::AbcdField;
use vat_abcd_crawler::abcd_fields::AbcdFields;
use vat_abcd_crawler::abcd_parser::AbcdError;
use vat_abcd_crawler::abcd_parser::AbcdParser;
use vat_abcd_crawler::database_sink::DatabaseSink;
use vat_abcd_crawler::pangaea::PangaeaSearchResult;
use vat_abcd_crawler::pangaea::PangaeaSearchResultEntry;
use vat_abcd_crawler::pipeline::archive_file_name;
use vat_abcd_crawler::pipeline::csv_header;
use vat_abcd_crawler::pipeline::process_member;
use vat_abcd_crawler::pipeline::propose_landing_page;
use vat_abcd_crawler::pipeline::should_cache_archive;
use vat_abcd_crawler::pipeline::units_to_csv;
use vat_abcd_crawler::file_downloader::FileDownloader;
use vat_abcd_crawler::settings::AbcdSettings;
use vat_abcd_crawler::settings::DatabaseSettings;
use vat_abcd_crawler::settings::TerminologyServiceSettings;

fn abcd_settings() -> AbcdSettings {
    AbcdSettings {
        fields_file: "".to_string(),
        landing_page_field: "/DataSets/DataSet/Metadata/Description/Representation/URI"
            .to_string(),
        storage_dir: "raw_data".to_string(),
    }
}

fn database_settings() -> DatabaseSettings {
    DatabaseSettings {
        host: "localhost".to_string(),
        port: 5432,
        tls: false,
        database: "vat".to_string(),
        user: "user".to_string(),
        password: "SECRET-REDACTED".to_string(),
        schema: "pg_temp".to_string(),
        dataset_table: "abcd_datasets".to_string(),
        listing_view: "dataset_listing".to_string(),
        temp_dataset_table: "abcd_datasets_temp".to_string(),
        surrogate_key_column: "surrogate_key".to_string(),
        dataset_id_column: "dataset_id".to_string(),
        dataset_path_column: "dataset_path".to_string(),
        dataset_landing_page_column: "dataset_landing_page".to_string(),
        dataset_provider_column: "dataset_provider".to_string(),
        unit_table: "abcd_units".to_string(),
        temp_unit_table: "abcd_units_temp".to_string(),
        unit_indexed_columns: vec![],
    }
}

fn unit_id_dictionary() -> AbcdFields {
    AbcdFields::fields_to_map(&vec![AbcdField {
        name: "/DataSets/DataSet/Units/Unit/UnitID".to_string(),
        numeric: false,
        vat_mandatory: false,
        gfbio_mandatory: true,
        global_field: false,
        unit: "".to_string(),
    }])
}

fn simple_document(unit_id: &str) -> Vec<u8> {
    format!(
        "<DataSets><DataSet><Units><Unit><UnitID>{}</UnitID></Unit></Units></DataSet></DataSets>",
        unit_id,
    )
    .into_bytes()
}

#[test]
fn landing_page_proposal_concatenates_base_and_archive() {
    let settings = TerminologyServiceSettings {
        landingpage_url: "https://terminology.example/landing".to_string(),
    };
    assert_eq!(
        propose_landing_page(&settings, "http://archives.example/a.zip"),
        "https://terminology.example/landing?archive=http://archives.example/a.zip",
    );
}

#[test]
fn archive_file_names_keep_letters_and_dashes_only() {
    assert_eq!(archive_file_name("oai:abc.de:123/x-Y"), "oai_abc_de_____x-Y.zip");
    assert_eq!(archive_file_name(""), ".zip");
    assert_eq!(archive_file_name("plain-Name"), "plain-Name.zip");
}

#[test]
fn archives_are_cached_only_after_full_success() {
    assert!(should_cache_archive(true, 2));
    assert!(!should_cache_archive(true, 0));
    assert!(!should_cache_archive(false, 2));
    assert!(!should_cache_archive(false, 0));
}

#[test]
fn archive_with_one_malformed_member_still_inserts_the_valid_member() {
    let abcd_settings = abcd_settings();
    let database_settings = database_settings();
    let abcd_fields = unit_id_dictionary();
    let mut parser = AbcdParser::new();
    let mut sink = DatabaseSink::new(&database_settings, &abcd_fields);

    let mut all_inserts_successful = true;

    let malformed = b"<DataSets><DataSet><Units></Wrong></Units></DataSet></DataSets>";
    let outcome = process_member(
        &mut parser,
        &mut sink,
        &abcd_settings,
        &database_settings,
        &abcd_fields,
        "ID",
        "PATH",
        "PROPOSAL",
        "PROVIDER",
        malformed,
    );
    assert_eq!(outcome.expect_err("Malformed member must fail"), AbcdError::MalformedXml);
    all_inserts_successful = false;

    let valid = simple_document("U1");
    let commands = process_member(
        &mut parser,
        &mut sink,
        &abcd_settings,
        &database_settings,
        &abcd_fields,
        "ID",
        "PATH",
        "PROPOSAL",
        "PROVIDER",
        &valid,
    )
    .expect("Valid member must insert");
    assert_eq!(commands.len(), 2);
    assert!(commands[1].payload.contains("U1"));

    assert!(!should_cache_archive(all_inserts_successful, 2));
}

#[test]
fn recovered_archive_parses_like_a_fresh_one() {
    let abcd_settings = abcd_settings();
    let database_settings = database_settings();
    let abcd_fields = unit_id_dictionary();
    let mut parser = AbcdParser::new();

    let cached = simple_document("U2");

    let mut sink1 = DatabaseSink::new(&database_settings, &abcd_fields);
    let mut sink2 = DatabaseSink::new(&database_settings, &abcd_fields);

    let first = process_member(
        &mut parser,
        &mut sink1,
        &abcd_settings,
        &database_settings,
        &abcd_fields,
        "ID",
        "PATH",
        "PROPOSAL",
        "PROVIDER",
        &cached,
    )
    .expect("Cached archive must parse");
    let second = process_member(
        &mut parser,
        &mut sink2,
        &abcd_settings,
        &database_settings,
        &abcd_fields,
        "ID",
        "PATH",
        "PROPOSAL",
        "PROVIDER",
        &cached,
    )
    .expect("Cached archive must parse again");

    assert_eq!(first.len(), second.len());
    assert_eq!(first[0].payload, second[0].payload);
    assert_eq!(first[1].payload, second[1].payload);
    assert!(should_cache_archive(true, 1));
}

#[test]
fn units_render_to_comma_separated_rows() {
    let abcd_settings = abcd_settings();
    let abcd_fields = unit_id_dictionary();
    let mut parser = AbcdParser::new();

    let bytes = simple_document("comma, quote \" and text");
    let result = parser
        .parse(&abcd_settings, &abcd_fields, "", "file.zip", "", "", &bytes)
        .expect("Unable to parse bytes");

    let header = csv_header(&abcd_fields);
    assert_eq!(header, "/DataSets/DataSet/Units/Unit/UnitID\n");

    let rows = units_to_csv(&abcd_fields, &result.units);
    assert_eq!(rows, "\"comma, quote \"\" and text\"\n");
}

#[test]
fn retrieve_all_entries_concatenates_pages_in_order() {
    let page1 = PangaeaSearchResult::new(
        "CURSOR-1".to_string(),
        3,
        vec![
            PangaeaSearchResultEntry::new(
                "id-1".to_string(),
                "publisher-1".to_string(),
                "http://download/1".to_string(),
            ),
            PangaeaSearchResultEntry::new(
                "id-2".to_string(),
                "publisher-2".to_string(),
                "http://download/2".to_string(),
            ),
        ],
    );
    let page2 = PangaeaSearchResult::new(
        "CURSOR-2".to_string(),
        3,
        vec![PangaeaSearchResultEntry::new(
            "id-3".to_string(),
            "publisher-3".to_string(),
            "http://download/3".to_string(),
        )],
    );
    let empty = PangaeaSearchResult::new("CURSOR-3".to_string(), 3, vec![]);

    assert!(page1.wants_more());
    assert!(!empty.wants_more());
    assert_eq!(page2.scroll_id(), "CURSOR-2");

    let entries = PangaeaSearchResult::retrieve_all_entries(&vec![page1, page2, empty]);
    assert_eq!(entries.len(), 3);
    assert_eq!(entries[0].id(), "id-1");
    assert_eq!(entries[0].publisher(), "publisher-1");
    assert_eq!(entries[0].download_url(), "http://download/1");
    assert_eq!(entries[2].id(), "id-3");
}

#[test]
fn file_downloader_keeps_its_url() {
    let downloader = FileDownloader::from_url("http://archives.example/a.zip");
    assert_eq!(downloader.url(), "http://archives.example/a.zip");
}

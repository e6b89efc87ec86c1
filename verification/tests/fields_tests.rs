use vat_abcd_crawler::abcd_fields::AbcdField;
use vat_abcd_crawler::abcd_fields::AbcdFields;
use vat_abcd_crawler::bms::BmsDataset;
use vat_abcd_crawler::bms::BmsProvider;
use vat_abcd_crawler::bms::BmsProviders;
use vat_abcd_crawler::bms::BmsXmlArchive;
use vat_abcd_crawler::bms::download_datasets;
use vat_abcd_crawler::field::Field;
use vat_abcd_crawler::strutil::chars_of;
use vat_abcd_crawler::surrogate_key::SurrogateKey;
use vat_abcd_crawler::surrogate_key::SurrogateKeyType;

fn field(
    name: &str,
    numeric: bool,
    vat_mandatory: bool,
    gfbio_mandatory: bool,
    global_field: bool,
    unit: &str,
) -> AbcdField {
    AbcdField {
        name: name.to_string(),
        numeric,
        vat_mandatory,
        gfbio_mandatory,
        global_field,
        unit: unit.to_string(),
    }
}

fn two_field_dictionary() -> Vec<AbcdField> {
    vec![
        field("/DataSets/DataSet/DatasetGUID", false, false, false, true, ""),
        field(
            "/DataSets/DataSet/Units/Unit/SourceInstitutionID",
            false,
            true,
            true,
            false,
            "TEST",
        ),
    ]
}

#[test]
fn abcd_fields_simple_file() {
    let abcd_fields = AbcdFields::fields_to_map(&two_field_dictionary());

    assert_eq!(abcd_fields.len(), 2);

    let field1 = abcd_fields
        .value_of(&chars_of("/DataSets/DataSet/DatasetGUID"))
        .expect("Field not found");
    assert_eq!(field1.name, "/DataSets/DataSet/DatasetGUID");
    assert!(!field1.numeric);
    assert!(!field1.vat_mandatory);
    assert!(!field1.gfbio_mandatory);
    assert!(field1.global_field);
    assert!(field1.unit.is_empty());

    let field2 = abcd_fields
        .value_of(&chars_of("/DataSets/DataSet/Units/Unit/SourceInstitutionID"))
        .expect("Field not found");
    assert_eq!(field2.name, "/DataSets/DataSet/Units/Unit/SourceInstitutionID");
    assert!(!field2.numeric);
    assert!(field2.vat_mandatory);
    assert!(field2.gfbio_mandatory);
    assert!(!field2.global_field);
    assert_eq!(field2.unit, "TEST");

    assert!(abcd_fields.value_of(&chars_of("/DataSets/DataSet/Unknown")).is_none());
}

#[test]
fn iterate_values() {
    let abcd_fields = AbcdFields::fields_to_map(&two_field_dictionary());

    let mut number_of_fields = 0;
    for i in 0..abcd_fields.len() {
        let _field = abcd_fields.field_at(i);
        number_of_fields += 1;
    }

    assert_eq!(number_of_fields, 2);
}

#[test]
fn digest() {
    let field = Field::new("test");
    assert_eq!(field.hash, "a94a8fe5ccb19ba61c4c0873d391e987982fbbd3");
}

#[test]
fn digest_is_forty_lowercase_hex_characters() {
    let field = Field::new("/DataSets/DataSet/DatasetGUID");
    assert_eq!(field.hash.len(), 40);
    assert!(field.hash.chars().all(|c| c.is_ascii_hexdigit() && !c.is_ascii_uppercase()));
    assert_ne!(field.hash, Field::new("/DataSets/DataSet/Units/Unit/UnitID").hash);
}

#[test]
fn new_keys() {
    let mut surrogate_key = SurrogateKey::new();

    for i in 1..=5 {
        assert_eq!(SurrogateKeyType::New(i), surrogate_key.for_id(&i.to_string()));
    }
}

#[test]
fn existing_key() {
    let mut surrogate_key = SurrogateKey::new();

    assert_eq!(SurrogateKeyType::New(1), surrogate_key.for_id("foo"));
    assert_eq!(SurrogateKeyType::Existing(1), surrogate_key.for_id("foo"));
    assert_eq!(SurrogateKeyType::New(2), surrogate_key.for_id("bar"));
}

#[test]
fn downloads_providers() {
    let bms_providers = BmsProviders::new(vec![
        BmsProvider {
            id: "6".to_string(),
            shortname: "BGBM".to_string(),
            name: "Botanic Garden and Botanical Museum Berlin, Freie Universität Berlin"
                .to_string(),
            url: "www.bgbm.org".to_string(),
            biocase_url: "https://ww3.bgbm.org/biocase/".to_string(),
        },
        BmsProvider {
            id: "5".to_string(),
            shortname: "DSMZ".to_string(),
            name: "Leibniz Institute DSMZ – German Collection of Microorganisms and Cell \
                   Cultures, Braunschweig"
                .to_string(),
            url: "www.dsmz.de".to_string(),
            biocase_url: "http://biocase.dsmz.de/wrappers/biocase".to_string(),
        },
    ]);

    let bgbm = bms_providers.value_of("www.bgbm.org");
    assert!(bgbm.is_some());
    assert_eq!(bgbm.unwrap().id, "6");

    let dsmz = bms_providers.value_of("www.dsmz.de");
    assert!(dsmz.is_some());
    assert_eq!(dsmz.unwrap().id, "5");

    assert!(bms_providers.value_of("").is_none());
    assert!(bms_providers.get("www.bgbm.org").is_some());
}

#[test]
fn latest_archive_is_found() {
    let dataset = BmsDataset {
        provider_datacenter: "provider_datacenter".to_string(),
        provider_url: "provider_url".to_string(),
        dsa: "dsa".to_string(),
        dataset: "dataset".to_string(),
        xml_archives: vec![
            BmsXmlArchive {
                id: "old".to_string(),
                xml_archive: "http://archive/old.zip".to_string(),
                latest: false,
            },
            BmsXmlArchive {
                id: "new".to_string(),
                xml_archive: "http://archive/new.zip".to_string(),
                latest: true,
            },
        ],
    };

    let latest = dataset.get_latest_archive().expect("Missing latest archive");
    assert_eq!(latest.id, "new");
    assert_eq!(latest.xml_archive, "http://archive/new.zip");
    assert!(latest.latest);
}

#[test]
fn dataset_without_latest_archive_is_an_error() {
    let dataset = BmsDataset {
        provider_datacenter: "provider_datacenter".to_string(),
        provider_url: "provider_url".to_string(),
        dsa: "dsa".to_string(),
        dataset: "empty dataset".to_string(),
        xml_archives: vec![],
    };

    let error = dataset.get_latest_archive().expect_err("Expected missing file error");
    assert_eq!(error.message(), "Dataset empty dataset contains no file to download.");
}

#[test]
fn download_plans_follow_dataset_order() {
    let datasets = vec![
        BmsDataset {
            provider_datacenter: "a".to_string(),
            provider_url: "a".to_string(),
            dsa: "a".to_string(),
            dataset: "first".to_string(),
            xml_archives: vec![BmsXmlArchive {
                id: "1".to_string(),
                xml_archive: "http://archive/1.zip".to_string(),
                latest: true,
            }],
        },
        BmsDataset {
            provider_datacenter: "b".to_string(),
            provider_url: "b".to_string(),
            dsa: "b".to_string(),
            dataset: "second".to_string(),
            xml_archives: vec![],
        },
    ];

    let plans = download_datasets(&datasets);
    assert_eq!(plans.len(), 2);

    let first = plans[0].as_ref().expect("First plan should exist");
    assert_eq!(first.path, "0.zip");
    assert_eq!(first.url, "http://archive/1.zip");

    let second = plans[1].as_ref().expect_err("Second plan should fail");
    assert_eq!(second.message(), "Dataset second contains no file to download.");
}

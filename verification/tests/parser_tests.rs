use vat_abcd_crawler::abcd_fields::AbcdField;
use vat_abcd_crawler::abcd_fields::AbcdFields;
use vat_abcd_crawler::abcd_parser::AbcdError;
use vat_abcd_crawler::abcd_parser::AbcdParser;
use vat_abcd_crawler::settings::AbcdSettings;
use vat_abcd_crawler::vat_type::VatType;

const TECHNICAL_CONTACT_NAME: &str = "TECHNICAL CONTACT NAME";
const DESCRIPTION_TITLE: &str = "DESCRIPTION TITLE";
const LANDING_PAGE: &str = "http://LANDING-PAGE/";
const UNIT_ID: &str = "UNIT ID";
const UNIT_LONGITUDE: f64 = 10.911;
const UNIT_LATITUDE: f64 = 49.911;
const UNIT_SPATIAL_DATUM: &str = "TECHNICAL WGS84 EMAIL";

const LONGITUDE_PATH: &str = "/DataSets/DataSet/Units/Unit/Gathering/SiteCoordinateSets/SiteCoordinates/CoordinatesLatLong/LongitudeDecimal";
const LATITUDE_PATH: &str = "/DataSets/DataSet/Units/Unit/Gathering/SiteCoordinateSets/SiteCoordinates/CoordinatesLatLong/LatitudeDecimal";
const SPATIAL_DATUM_PATH: &str = "/DataSets/DataSet/Units/Unit/Gathering/SiteCoordinateSets/SiteCoordinates/CoordinatesLatLong/SpatialDatum";

fn abcd_settings() -> AbcdSettings {
    AbcdSettings {
        fields_file: "".to_string(),
        landing_page_field: "/DataSets/DataSet/Metadata/Description/Representation/URI"
            .to_string(),
        storage_dir: "raw_data".to_string(),
    }
}

fn field(name: &str, numeric: bool, global_field: bool, unit: &str) -> AbcdField {
    AbcdField {
        name: name.to_string(),
        numeric,
        vat_mandatory: numeric,
        gfbio_mandatory: true,
        global_field,
        unit: unit.to_string(),
    }
}

fn create_abcd_fields() -> AbcdFields {
    AbcdFields::fields_to_map(&vec![
        field("/DataSets/DataSet/TechnicalContacts/TechnicalContact/Name", false, true, ""),
        field("/DataSets/DataSet/Metadata/Description/Representation/Title", false, true, ""),
        field("/DataSets/DataSet/Metadata/Description/Representation/URI", false, true, ""),
        field("/DataSets/DataSet/Units/Unit/UnitID", false, false, ""),
        field(LONGITUDE_PATH, true, false, "°"),
        field(LATITUDE_PATH, true, false, "°"),
        field(SPATIAL_DATUM_PATH, false, false, ""),
    ])
}

fn create_file_as_bytes() -> Vec<u8> {
    format!(
        r#"
        <?xml version="1.0" encoding="UTF-8"?>
        <abcd:DataSets xmlns:xsi="http://www.w3.org/2001/XMLSchema-instance"
                       xmlns:abcd="http://www.tdwg.org/schemas/abcd/2.06"
                       xsi:schemaLocation=" http://www.tdwg.org/schemas/abcd/2.06 http://rs.tdwg.org/abcd/2.06/ABCD_2.06.xsd">
        <abcd:DataSet>
            <abcd:TechnicalContacts>
                <abcd:TechnicalContact>
                    <abcd:Name>{TECHNICAL_CONTACT_NAME}</abcd:Name>
                </abcd:TechnicalContact>
            </abcd:TechnicalContacts>
            <abcd:Metadata>
                <abcd:Description>
                    <abcd:Representation language="en">
                        <abcd:Title>{DESCRIPTION_TITLE}</abcd:Title>
                        <abcd:URI>{LANDING_PAGE}</abcd:URI>
                    </abcd:Representation>
                </abcd:Description>
            </abcd:Metadata>
            <abcd:Units>
                <abcd:Unit>
                    <abcd:UnitID>{UNIT_ID}</abcd:UnitID>
                    <abcd:Gathering>
                        <abcd:SiteCoordinateSets>
                            <abcd:SiteCoordinates>
                                <abcd:CoordinatesLatLong>
                                    <abcd:LongitudeDecimal>{UNIT_LONGITUDE}</abcd:LongitudeDecimal>
                                    <abcd:LatitudeDecimal>{UNIT_LATITUDE}</abcd:LatitudeDecimal>
                                    <abcd:SpatialDatum>{UNIT_SPATIAL_DATUM}</abcd:SpatialDatum>
                                </abcd:CoordinatesLatLong>
                            </abcd:SiteCoordinates>
                        </abcd:SiteCoordinateSets>
                    </abcd:Gathering>
                </abcd:Unit>
            </abcd:Units>
        </abcd:DataSet>
        </abcd:DataSets>
        "#,
        TECHNICAL_CONTACT_NAME = TECHNICAL_CONTACT_NAME,
        DESCRIPTION_TITLE = DESCRIPTION_TITLE,
        LANDING_PAGE = LANDING_PAGE,
        UNIT_ID = UNIT_ID,
        UNIT_LONGITUDE = UNIT_LONGITUDE,
        UNIT_LATITUDE = UNIT_LATITUDE,
        UNIT_SPATIAL_DATUM = UNIT_SPATIAL_DATUM,
    )
    .into_bytes()
}

#[test]
fn abcd_parser_simple_file() {
    let abcd_fields = create_abcd_fields();
    let abcd_settings = abcd_settings();

    let test_file = create_file_as_bytes();

    let mut parser = AbcdParser::new();

    let dataset_id = "dataset_id";
    let dataset_path = "dataset_path";
    let landing_page_proposal = "landing_page proposal";
    let provider_name = "provider_id";

    let result = parser
        .parse(
            &abcd_settings,
            &abcd_fields,
            dataset_id,
            dataset_path,
            landing_page_proposal,
            provider_name,
            test_file.as_slice(),
        )
        .expect("Unable to parse bytes");

    assert_eq!(result.dataset_id, dataset_id);
    assert_eq!(result.dataset_path, dataset_path);
    assert_eq!(result.landing_page, LANDING_PAGE);
    assert_eq!(result.provider_name, provider_name);

    assert_eq!(
        Some(&VatType::Textual(TECHNICAL_CONTACT_NAME.to_string())),
        result
            .dataset
            .get(&"/DataSets/DataSet/TechnicalContacts/TechnicalContact/Name".to_string())
    );
    assert_eq!(
        Some(&VatType::Textual(DESCRIPTION_TITLE.to_string())),
        result
            .dataset
            .get(&"/DataSets/DataSet/Metadata/Description/Representation/Title".to_string())
    );

    assert_eq!(result.units.len(), 1);

    let unit = result.units.get(0).unwrap();

    assert_eq!(
        Some(&VatType::Textual(UNIT_ID.to_string())),
        unit.get(&"/DataSets/DataSet/Units/Unit/UnitID".to_string())
    );
    assert_eq!(
        Some(&VatType::Textual(UNIT_SPATIAL_DATUM.to_string())),
        unit.get(&SPATIAL_DATUM_PATH.to_string())
    );

    if let (Some(VatType::Numeric(longitude)), Some(VatType::Numeric(latitude))) = (
        unit.get(&LONGITUDE_PATH.to_string()),
        unit.get(&LATITUDE_PATH.to_string()),
    ) {
        let longitude: f64 = longitude.parse().unwrap();
        let latitude: f64 = latitude.parse().unwrap();
        assert!(f64::abs(longitude - UNIT_LONGITUDE) < 0.01);
        assert!(f64::abs(latitude - UNIT_LATITUDE) < 0.01);
    } else {
        panic!("Coordinates are missing or not numeric");
    }
}

#[test]
fn file_without_units_gives_no_dataset_metadata() {
    let abcd_fields = create_abcd_fields();
    let abcd_settings = abcd_settings();
    let mut parser = AbcdParser::new();

    let bytes = b"<?xml version=\"1.0\"?><DataSets><DataSet></DataSet></DataSets>";

    let error = parser
        .parse(&abcd_settings, &abcd_fields, "id", "path", "proposal", "provider", bytes)
        .expect_err("Expected a parse failure");
    assert_eq!(error, AbcdError::NoDatasetMetadata);
}

#[test]
fn malformed_xml_fails_the_member() {
    let abcd_fields = create_abcd_fields();
    let abcd_settings = abcd_settings();
    let mut parser = AbcdParser::new();

    let bytes = b"<DataSets><DataSet><Units></DataSet>";

    let error = parser
        .parse(&abcd_settings, &abcd_fields, "id", "path", "proposal", "provider", bytes)
        .expect_err("Expected a parse failure");
    assert_eq!(error, AbcdError::MalformedXml);
}

#[test]
fn namespace_prefix_is_ignored() {
    let abcd_fields = create_abcd_fields();
    let abcd_settings = abcd_settings();
    let mut parser = AbcdParser::new();

    let prefixed = b"<abcd:DataSets><abcd:DataSet><abcd:Units><abcd:Unit><abcd:UnitID>U1</abcd:UnitID></abcd:Unit></abcd:Units></abcd:DataSet></abcd:DataSets>";
    let bare = b"<DataSets><DataSet><Units><Unit><UnitID>U1</UnitID></Unit></Units></DataSet></DataSets>";

    let r1 = parser
        .parse(&abcd_settings, &abcd_fields, "id", "path", "proposal", "provider", prefixed)
        .expect("Unable to parse prefixed document");
    let r2 = parser
        .parse(&abcd_settings, &abcd_fields, "id", "path", "proposal", "provider", bare)
        .expect("Unable to parse bare document");

    assert_eq!(r1.units.len(), 1);
    assert_eq!(r2.units.len(), 1);
    let key = "/DataSets/DataSet/Units/Unit/UnitID".to_string();
    assert_eq!(r1.units[0].get(&key), Some(&VatType::Textual("U1".to_string())));
    assert_eq!(r2.units[0].get(&key), r1.units[0].get(&key));
}

#[test]
fn non_numeric_text_leaves_field_absent() {
    let abcd_fields = create_abcd_fields();
    let abcd_settings = abcd_settings();
    let mut parser = AbcdParser::new();

    let bytes = format!(
        "<DataSets><DataSet><Units><Unit><Gathering><SiteCoordinateSets><SiteCoordinates>\
         <CoordinatesLatLong><LongitudeDecimal>NOT A NUMBER</LongitudeDecimal>\
         </CoordinatesLatLong></SiteCoordinates></SiteCoordinateSets></Gathering>\
         </Unit></Units></DataSet></DataSets>"
    )
    .into_bytes();

    let result = parser
        .parse(&abcd_settings, &abcd_fields, "id", "path", "proposal", "provider", &bytes)
        .expect("Unable to parse bytes");

    assert_eq!(result.units.len(), 1);
    assert_eq!(result.units[0].get(&LONGITUDE_PATH.to_string()), None);
}

#[test]
fn reparsing_the_same_bytes_gives_identical_maps() {
    let abcd_fields = create_abcd_fields();
    let abcd_settings = abcd_settings();
    let mut parser = AbcdParser::new();
    let bytes = create_file_as_bytes();

    let r1 = parser
        .parse(&abcd_settings, &abcd_fields, "id", "path", "proposal", "provider", &bytes)
        .expect("Unable to parse bytes");
    let r2 = parser
        .parse(&abcd_settings, &abcd_fields, "id", "path", "proposal", "provider", &bytes)
        .expect("Unable to parse bytes");

    assert_eq!(r1.landing_page, r2.landing_page);
    assert_eq!(r1.units.len(), r2.units.len());
    let title = "/DataSets/DataSet/Metadata/Description/Representation/Title".to_string();
    assert_eq!(r1.dataset.get(&title), r2.dataset.get(&title));
    let unit_id = "/DataSets/DataSet/Units/Unit/UnitID".to_string();
    assert_eq!(r1.units[0].get(&unit_id), r2.units[0].get(&unit_id));
}

#[test]
fn entities_stay_escaped_in_text_values() {
    let abcd_fields = create_abcd_fields();
    let abcd_settings = abcd_settings();
    let mut parser = AbcdParser::new();

    let bytes = b"<DataSets><DataSet><Units><Unit><UnitID>A &amp; B</UnitID></Unit></Units></DataSet></DataSets>";

    let result = parser
        .parse(&abcd_settings, &abcd_fields, "id", "path", "proposal", "provider", bytes)
        .expect("Unable to parse bytes");

    assert_eq!(
        result.units[0].get(&"/DataSets/DataSet/Units/Unit/UnitID".to_string()),
        Some(&VatType::Textual("A &amp; B".to_string()))
    );
}

use vstd::prelude::*;

verus! {

/// General run-wide settings.
#[derive(Debug)]
pub struct GeneralSettings {
    pub log_file: String,
    pub debug: bool,
}

/// Settings of the ABCD processing itself.
#[derive(Debug)]
pub struct AbcdSettings {
    pub fields_file: String,
    pub landing_page_field: String,
    pub storage_dir: String,
}

/// Where the dataset search index is reached.
#[derive(Debug)]
pub struct PangaeaSettings {
    pub search_url: String,
    pub scroll_url: String,
}

/// Where landing pages are proposed from.
#[derive(Debug)]
pub struct TerminologyServiceSettings {
    pub landingpage_url: String,
}

/// Names and credentials of the target store.
#[derive(Debug)]
pub struct DatabaseSettings {
    pub host: String,
    pub port: u16,
    pub tls: bool,
    pub database: String,
    pub user: String,
    pub password: String,
    pub schema: String,
    pub dataset_table: String,
    pub listing_view: String,
    pub temp_dataset_table: String,
    pub surrogate_key_column: String,
    pub dataset_id_column: String,
    pub dataset_path_column: String,
    pub dataset_landing_page_column: String,
    pub dataset_provider_column: String,
    pub unit_table: String,
    pub temp_unit_table: String,
    pub unit_indexed_columns: Vec<String>,
}

/// Optional bounds on how many datasets a debug run touches.
#[derive(Debug)]
pub struct DebugSettings {
    pub dataset_start: Option<usize>,
    pub dataset_limit: Option<usize>,
}

/// The program settings.
#[derive(Debug)]
pub struct Settings {
    pub abcd: AbcdSettings,
    pub pangaea: PangaeaSettings,
    pub terminology_service: TerminologyServiceSettings,
    pub database: DatabaseSettings,
    pub debug: DebugSettings,
    pub general: GeneralSettings,
}

} // verus!

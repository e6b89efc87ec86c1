pub mod abcd_fields;
pub mod abcd_parser;
pub mod assoc;
pub mod bms;
pub mod database_sink;
pub mod field;
pub mod file_downloader;
pub mod pangaea;
pub mod pipeline;
pub mod settings;
pub mod strutil;
pub mod surrogate_key;
pub mod tsv;
pub mod value_map;
pub mod vat_type;
pub mod xml_events;

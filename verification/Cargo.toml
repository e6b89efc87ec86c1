[package]
name = "vat_abcd_crawler"
version = "0.1.0"
edition = "2021"
publish = false

[dependencies]
quick-xml = "*"
serde_json = "*"
sha1 = "*"
csv = "*"
serde = { version = "*", features = ["derive"] }
postgres = "*"
postgres-openssl = "*"
openssl = "*"
reqwest = { version = "*", features = ["blocking", "json"] }
zip = "*"
tempfile = "*"
clap = "*"
config = "*"
simplelog = "*"
log = "*"

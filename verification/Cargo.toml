[package]
name = "dsmr_parse"
version = "0.1.0"
edition = "2021"
publish = false

[dependencies]
chrono = { version = "0.4", default-features = false }
crc16 = "0.4"
jiff = { version = "0.2", features = ["tzdb-bundle-always"] }
log = "0.4"

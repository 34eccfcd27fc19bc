[package]
name = "point_ledger"
version = "0.1.0"
edition = "2021"
publish = false

[dependencies]
chrono = { version = "0.4", features = ["serde"] }
rand = "0.8"
ring = "0.17"
zstd = "0.11"
zip = { version = "0.6", default-features = false, features = ["zstd"] }
serde = { version = "1", features = ["derive"] }
serde_json = "1"
sysinfo = "0.29"
fstrings = "0.2"

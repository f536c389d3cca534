[package]
name = "tsdata_ingest"
version = "0.1.0"
edition = "2021"
publish = false

[dependencies]
chrono = "*"
diesel = { version = "*", features = ["postgres", "r2d2", "chrono", "serde_json"] }
dotenvy = "*"
hex = "*"
rand = "*"
serde = { version = "*", features = ["derive"] }
serde_json = "*"

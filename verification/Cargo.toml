[package]
name = "usage_report"
version = "0.1.0"
edition = "2021"
publish = false

[dependencies]
dotenvy = "*"
reqwest = { version = "*", default-features = false, features = ["blocking"] }
rust_xlsxwriter = "*"
serde = "*"
serde_derive = "*"
serde_json = "*"

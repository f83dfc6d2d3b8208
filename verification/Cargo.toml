[package]
name = "google_maps"
version = "0.1.0"
edition = "2021"
publish = false

[dependencies]
serde_json = "*"
serde = { version = "*", features = ["derive"] }
chrono = "*"
geo-types = "*"
rust_decimal = "*"

[package]
name = "en16931"
version = "0.1.0"
edition = "2021"
publish = false

[dependencies]
rust_decimal = "=1.43.0"
sepa = "=0.9.0"
chrono = { version = "=0.4.45", default-features = false, features = ["std"] }
time = "=0.3.55"
serde = { version = "=1.0.229", features = ["derive"] }
thiserror = "=2.0.21"

[dev-dependencies]
serde_json = "=1.0.154"
roxmltree = "0.20"

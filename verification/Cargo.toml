[package]
name = "rf_remote"
version = "0.1.0"
edition = "2021"
publish = false

[dependencies]
serde = { version = "*", features = ["derive"] }
serde_json = "*"
esp-idf-hal = "*"
esp-idf-svc = "*"
esp-idf-sys = "*"

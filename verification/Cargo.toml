[package]
name = "agitech_pump"
version = "0.1.0"
edition = "2021"
publish = false

[dependencies]
anyhow = "1"
esp-idf-hal = "0.45"
esp-idf-svc = "0.51"
esp-idf-sys = "0.36"
log = "0.4"
serde = { version = "1", features = ["derive"] }
serde_json = "1"

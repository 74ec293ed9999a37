[package]
name = "audiogram"
version = "0.1.0"
edition = "2021"
publish = false

[dependencies]
chrono = "0.4"
crossterm = "0.25"
csv = "1"
plotters = "0.3"
rodio = { version = "0.17", default-features = false }
serde = { version = "1", features = ["derive"] }
serde_yaml = "0.9"

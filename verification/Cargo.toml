[package]
name = "daw"
version = "0.1.0"
edition = "2021"
publish = false

[dependencies]
serde = { version = "1", features = ["derive"] }
serde_json = "1"
anyhow = "1"
parking_lot = "0.12"
crossbeam = "0.8"
hound = "3"
log = "0.4"
symphonia = "0.5"

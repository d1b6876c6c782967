[package]
name = "pauza"
version = "0.1.0"
edition = "2021"
publish = false

[dependencies]
chrono = "0.4"
crossbeam-channel = "0.5"
dbus = "0.9"
serde = { version = "1", features = ["derive"] }
serde_json = "1"
serde_with = "3"

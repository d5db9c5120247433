[package]
name = "taitsu"
version = "0.1.0"
edition = "2021"
publish = false

[dependencies]
oshatori = "=0.2.0"
chrono = "0.4"
tokio = { version = "1", features = ["rt-multi-thread", "sync", "time"] }
serde_json = "1"
dirs = "*"
async-trait = "0.1"
egui = { version = "0.29", default-features = false }
egui_extras = { version = "0.29", default-features = false }

[package]
name = "audio_controller"
version = "0.1.0"
edition = "2021"
publish = false

[dependencies]
futures-util = "0.3"
hex = "0.4"
jsonwebtoken = "9"
parking_lot = "0.12"
rand = "0.9"
rodio = "0.20"
serde = { version = "1", features = ["derive"] }
serde_json = "1"
symphonia = "0.5"
thiserror = "1"
tokio = { version = "1", features = ["rt-multi-thread", "time", "sync", "macros"] }
tokio-tungstenite = "0.24"
ureq = "2"

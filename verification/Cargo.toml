[package]
name = "v8_rs"
version = "0.1.0"
edition = "2021"
publish = false

[dependencies]
serde = { version = "1", features = ["derive"] }
serde_json = "1"
serde-aux = "4"
tungstenite = "0.20"
log = "0.4"

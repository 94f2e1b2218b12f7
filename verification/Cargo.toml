[package]
name = "euphoxide"
version = "0.1.0"
edition = "2021"
publish = false

[dependencies]
caseless = "*"
unicode-normalization = "*"
cookie = "*"
jiff = "*"
serde = { version = "*", features = ["derive"] }
serde_json = "*"
tokio = { version = "*", features = ["rt", "sync", "time", "macros", "net"] }
tokio-tungstenite = "*"
futures-util = "*"
async-trait = "*"

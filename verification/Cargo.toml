[package]
name = "cassie_cool"
version = "0.1.0"
edition = "2021"
publish = false

[dependencies]
actix-web = "*"
async-channel = "*"
awc = "*"
port-selector = "*"
serde = { version = "*", features = ["derive"] }
serde_json = "*"
tokio = { version = "*", features = ["rt-multi-thread", "macros", "net", "io-util", "sync", "time"] }

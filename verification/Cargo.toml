[package]
name = "rovlink"
version = "0.1.0"
edition = "2021"
publish = false

[dependencies]
uuid = "1"
chrono = "0.4"
serde = { version = "1", features = ["derive"] }
serde_json = "1"
tokio = { version = "1", features = ["rt-multi-thread", "macros", "time", "sync", "net", "io-util"] }
tokio-tungstenite = "0.24"
futures-util = "0.3"
dirs = "5"

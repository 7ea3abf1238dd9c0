[package]
name = "socketeer"
version = "0.5.0"
edition = "2021"
publish = false

[dependencies]
bytes = "1"
futures = "0.3"
rmp-serde = "1"
serde = { version = "1", features = ["derive"] }
serde_json = "1"
thiserror = "2"
tokio = { version = "1", features = ["macros", "net", "rt-multi-thread", "sync", "time"] }
tokio-tungstenite = "*"
tracing = "0.1"
url = "2"

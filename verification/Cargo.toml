[package]
name = "moosicbox_app"
version = "0.1.0"
edition = "2021"
publish = false

[dependencies]
bytes = "*"
serde = { version = "*", features = ["derive"] }
serde_json = "*"
thiserror = "*"
log = "*"
tokio = { version = "*", features = ["sync", "time", "rt", "rt-multi-thread", "macros", "net"] }
tokio-util = "*"
tokio-tungstenite = "*"
futures-channel = "*"
futures-util = "*"
async-trait = "*"
reqwest = { version = "*", default-features = false, features = ["json"] }

[package]
name = "antikythera_core"
version = "0.1.0"
edition = "2021"
publish = false

[dependencies]
serde = { version = "=1.0.229", features = ["derive"] }
serde_json = "=1.0.154"
uuid = { version = "=1.29.0", features = ["v4"] }
chrono = "=0.4.45"
shellexpand = "=3.1.2"
postcard = { version = "=1.1.3", features = ["alloc"] }
thiserror = "=2.0.21"
dotenvy = "=0.15.7"
utoipa = "=5.5.0"
tokio = { version = "1", features = ["full"] }
async-trait = "0.1"
futures = "0.3"
reqwest = { version = "0.12", default-features = false, features = ["json", "stream"] }
clap = { version = "4", features = ["derive"] }

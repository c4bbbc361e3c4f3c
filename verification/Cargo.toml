[package]
name = "questrade"
version = "0.1.0"
edition = "2021"
publish = false

[dependencies]
chrono = { version = "0.4", default-features = false, features = ["std"] }
http = "1"
itertools = "*"
reqwest = { version = "0.12", default-features = false }
serde_json = "1"
thiserror = "*"

[dev-dependencies]
serde_with = "*"

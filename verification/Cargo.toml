[package]
name = "archipelago_rs"
version = "0.1.0"
edition = "2021"
publish = false

[dependencies]
bytes = "1"
ratchet_core = "*"
ratchet_rs = { version = "*", features = ["deflate", "split"] }
serde = { version = "1", features = ["derive"] }
serde_json = "1"
thiserror = "1"
tokio = { version = "1", features = ["net", "io-util", "rt", "macros"] }
tokio-native-tls = "0.3"
anyhow = "1"

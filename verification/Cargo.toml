[package]
name = "clipbrain"
version = "0.1.0"
edition = "2021"
publish = false

[dependencies]
regex = "=1.13.1"
serde = { version = "=1.0.229", features = ["derive"] }
serde_json = "=1.0.154"
serde_yaml = "=0.9.34"
meval = "=0.2.0"
toml = "=0.8.23"
sha2 = "=0.10.9"
chrono = "=0.4.45"
dirs = "=5.0.1"
log = "=0.4.35"
async-trait = "=0.1.92"
futures-util = "=0.3.34"
tokio = { version = "=1.54.1", features = ["sync", "rt", "time", "fs", "io-util", "macros"] }
reqwest = { version = "=0.12.28", default-features = false, features = ["json", "rustls-tls", "stream"] }
rusqlite = { version = "=0.31.0", features = ["bundled"] }
image = { version = "=0.25.10", default-features = false, features = ["png"] }
arboard = "=3.7.0"
keyring = { version = "3", features = ["apple-native"] }

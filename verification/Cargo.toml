[package]
name = "wab2b_helper"
version = "0.1.0"
edition = "2021"
publish = false

[dependencies]
sha2 = "0.10"
url = "2"
mime_guess = "2"
regex = "1"
serde = { version = "1", features = ["derive"] }
serde_json = "1"
reqwest = { version = "0.12", features = ["json", "stream"] }
tokio = { version = "1", features = ["fs", "io-util", "rt", "macros"] }
futures-util = "0.3"
anyhow = "1"
thiserror = "1"
tempfile = "3"

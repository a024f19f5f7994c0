[package]
name = "musicgpt"
version = "0.1.0"
edition = "2021"
publish = false

[dependencies]
hound = "=3.5.1"
half = "=2.7.1"
anyhow = "=1.0.104"
cpal = "=0.18.2"
ort = { version = "=2.0.0-rc.13", default-features = false, features = ["std", "half"] }
tokenizers = "=0.23.2"
reqwest = { version = "=0.13.5", default-features = false, features = ["stream"] }
tokio = { version = "=1.53.2", features = ["fs", "io-util"] }
futures-util = "=0.3.34"

[package]
name = "fusion-tool"
version = "0.1.0"
edition = "2021"
publish = false

[dependencies]
anyhow = "1"
clap = { version = "4", features = ["derive"] }
console = "0.15"
dialoguer = "0.11"
flate2 = "1"
self-replace = "1"
serde = { version = "1", features = ["derive"] }
serde_json = "1"
tar = "0.4"
toml = "0.8"
ureq = "3"
zip = { version = "7", default-features = false, features = ["deflate"] }

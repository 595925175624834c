[package]
name = "hogg"
version = "0.1.0"
edition = "2021"
publish = false

[dependencies]
url = "2"
serde = { version = "1", features = ["derive"] }
serde_derive = "1"
serde_json = "1"
toml = "*"
tokio = { version = "1", features = ["full"] }
anyhow = "1"
clap = { version = "4", features = ["derive"] }
directories = "*"
include_dir = "*"
lazy_static = "1"
logs = "*"
notify-rust = "4"
reqwest = { version = "*", default-features = false, features = ["json", "cookies", "rustls-tls"] }
chrono = "0.4"
async-trait = "0.1"
err-derive = "*"

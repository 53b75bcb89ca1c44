[package]
name = "mure"
version = "0.1.0"
edition = "2021"
publish = false

[dependencies]
regex = "1"
shellexpand = "3"
git2 = "*"
clap = { version = "4", features = ["derive"] }
clap_complete = "4"
serde = { version = "1", features = ["derive"] }
serde_json = "1"
toml = "*"
dirs = "*"
reqwest = { version = "0.12", default-features = false, features = ["blocking", "json", "rustls-tls"] }

[package]
name = "zulip-helper"
version = "0.1.0"
edition = "2021"
publish = false

[dependencies]
chrono = "0.4"
dirs = "*"
failure = "0.1"
lazy_static = "1"
reqwest = { version = "0.12", default-features = false, features = ["blocking", "json", "default-tls"] }
serde = "1"
serde_derive = "1"
structopt = "0.3"
toml = "0.5"

[package]
name = "sit-issue-import"
version = "0.1.0"
edition = "2021"
publish = false

[dependencies]
clap = "2"
config = { version = "0.13", default-features = false, features = ["toml"] }
git2 = "*"
pbr = "1"
regex = "1"
reqwest = { version = "0.12", features = ["blocking", "json"] }
serde = "1"
serde_derive = "1"
serde_json = "1"

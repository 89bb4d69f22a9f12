[package]
name = "upcloud_migrate"
version = "0.1.0"
edition = "2021"
publish = false

[dependencies]
hcl-rs = "*"
indexmap = "*"
walkdir = "*"
anyhow = "*"
serde_json = "*"
tokio = { version = "*", features = ["full"] }
reqwest = { version = "*", default-features = false, features = ["json"] }
ratatui = "*"
crossterm = "*"

[package]
name = "package_cache"
version = "0.1.0"
edition = "2021"
publish = false

[dependencies]
dirs = "*"
flate2 = "1"
tar = "0.4"
toml = "*"
serde = { version = "1", features = ["derive"] }
serde_json = "1"
termcolor = "1"
ureq = { version = "2", default-features = false, features = ["json"] }

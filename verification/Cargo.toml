[package]
name = "collabook"
version = "0.1.0"
edition = "2021"
publish = false

[dependencies]
git2 = "*"
sha1 = "*"
chrono = "*"
walkdir = "*"
serde = { version = "*", features = ["derive"] }
serde_json = "*"
toml = "*"

[dev-dependencies]
tempdir = "*"
fs_extra = "*"

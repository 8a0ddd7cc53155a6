[package]
name = "driver_cache"
version = "0.1.0"
edition = "2021"
publish = false

[dependencies]
semver = "1"
anyhow = "1"
cargo_metadata = "*"
dirs = "*"
tempfile = "3"
git2 = { version = "*", default-features = false }

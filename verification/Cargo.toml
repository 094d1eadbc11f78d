[package]
name = "readme_sync"
version = "0.1.0"
edition = "2021"
rust-version = "1.95"
publish = false

[dependencies]
regex = "=1.13.1"
sha1 = "=0.6.1"
cargo-readme = "=3.4.1"
toml_edit = "0.25"

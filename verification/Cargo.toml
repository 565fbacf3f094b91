[package]
name = "local_registry"
version = "0.1.0"
edition = "2021"
rust-version = "1.95"
publish = false

[dependencies]
cargo = "=0.96.0"
cargo-credential-libsecret = "=0.5.6"
cargo-util = "=0.2.28"
git2 = "=0.20.4"
kstring = "=2.0.2"
rustc-serialize = "=0.3.25"
sha2 = "=0.10.9"
url = "=2.5.8"

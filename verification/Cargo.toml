[package]
name = "file_owner"
version = "0.1.0"
edition = "2021"
publish = false

[dependencies]
nix = { version = "*", features = ["fs", "user"] }

[dev-dependencies]
tempfile = "*"

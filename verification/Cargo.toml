[package]
name = "profile_launcher"
version = "0.1.0"
edition = "2021"
publish = false

[dependencies]
semver = "1"
directories = "*"
nix = { version = "0.29", features = ["process"] }
serde = { version = "1", features = ["derive"] }
serde_json = "1"

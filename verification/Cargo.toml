[package]
name = "cargo_jk"
version = "0.1.0"
edition = "2021"
publish = false

[dependencies]
cargo_metadata = "*"
clap = { version = "*", features = ["derive"] }
dircpy = "*"
nix = { version = "*", features = ["user"] }
plist = "*"
serde = { version = "*", features = ["derive"] }
serde_json = "*"

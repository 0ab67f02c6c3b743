[package]
name = "fprint_core"
version = "0.1.0"
edition = "2021"
publish = false

[dependencies]
zbus = "*"
nix = { version = "*", features = ["user"] }

[package]
name = "helix_vcs"
version = "0.1.0"
edition = "2021"
publish = false

[dependencies]
gix = "*"

[dev-dependencies]
tempfile = "=3.27.0"

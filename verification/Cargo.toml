[package]
name = "fadvise"
version = "0.1.0"
edition = "2021"
publish = false

[dependencies]
anyhow = "1"
clap = { version = "3.2", features = ["derive"] }
clap_complete = "3.2"
nix = { version = "0.25", features = ["fs"] }

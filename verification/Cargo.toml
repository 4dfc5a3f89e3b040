[package]
name = "safe_backup"
version = "0.1.0"
edition = "2021"
publish = false

[dependencies]
path-clean = "*"
clap = { version = "4", features = ["derive"] }
log = "0.4"
simplelog = "0.12"

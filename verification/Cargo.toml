[package]
name = "huak_cli"
version = "0.1.0"
edition = "2021"
publish = false

[dependencies]
pep440_rs = "*"
clap = { version = "*", features = ["derive"] }
clap_complete = "*"

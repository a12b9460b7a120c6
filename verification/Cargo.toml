[package]
name = "pfp_verifier"
version = "0.1.0"
edition = "2021"
publish = false

[dependencies]
prevail = "*"
thiserror = "*"
clap = { version = "*", features = ["derive"] }
open = "*"
tempfile = "*"

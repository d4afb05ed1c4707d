[package]
name = "micasa"
version = "0.1.0"
edition = "2021"
publish = false

[dependencies]
pep440_rs = "*"
flate2 = "*"
tar = "*"
serde = { version = "*", features = ["derive"] }
serde_json = "*"
clap = { version = "*", features = ["derive"] }
thiserror = "*"

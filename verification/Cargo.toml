[package]
name = "radyo"
version = "0.1.0"
edition = "2021"
publish = false

[dependencies]
anyhow = "*"
clap = { version = "*", default-features = false, features = ["derive", "std", "help", "usage"] }
iroh = "*"
iroh-base = "*"
tokio = { version = "*", features = ["full"] }

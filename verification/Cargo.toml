[package]
name = "droplet"
version = "0.1.0"
edition = "2021"
publish = false

[dependencies]
anyhow = "1"
chrono = "0.4"
clap = { version = "4", features = ["derive"] }
color-eyre = { version = "0.6", default-features = false }
reqwest = { version = "0.12", default-features = false, features = ["blocking"] }
thiserror = "1"
toml = "0.8"

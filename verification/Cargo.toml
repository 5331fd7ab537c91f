[package]
name = "rscom"
version = "0.1.0"
edition = "2021"
publish = false

[dependencies]
clap = { version = "=4.6.7", features = ["derive"] }
crossterm = "=0.29.0"
serde = { version = "=1.0.229", features = ["derive"] }
serde_yaml = "=0.9.34"
serialport = { version = "=4.10.1", default-features = false }

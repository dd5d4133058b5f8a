[package]
name = "kffmpeg"
version = "0.1.0"
edition = "2021"
publish = false

[dependencies]
clap = { version = "=4.6.7", features = ["derive"] }
colored = "=2.2.0"
dirs = "=5.0.1"
serde = { version = "=1.0.229", features = ["derive"] }
serde_yaml = "=0.9.34"
sha2 = "=0.10.9"

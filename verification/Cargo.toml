[package]
name = "vango"
version = "0.1.0"
edition = "2021"
publish = false

[dependencies]
clap = { version = "=4.6.7", features = ["derive"] }
serde = { version = "=1.0.229", features = ["derive"] }
serde_json = "=1.0.154"
termcolor = "=1.4.1"
thiserror = "=2.0.21"
toml = { version = "=0.8.23", features = ["preserve_order"] }

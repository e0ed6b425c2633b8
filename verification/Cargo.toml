[package]
name = "quadcastctl"
version = "0.1.0"
edition = "2021"
publish = false

[dependencies]
anyhow = "1"
clap = { version = "4", features = ["derive"] }
ctrlc = "3"
dirs = "6"
libc = "0.2"
rusb = "0.9"
serde = { version = "1", features = ["derive"] }
toml = "0.8"

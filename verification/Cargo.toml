[package]
name = "nybbler"
version = "0.1.0"
edition = "2021"
publish = false

[dependencies]
chrono = "0.4"
clap = { version = "4", features = ["derive"] }
console = "0.15"
dialoguer = "0.11"
dirs = "5"
indicatif = "0.17"
rand = "0.8"
serde = { version = "1", features = ["derive"] }
serde_json = "1"

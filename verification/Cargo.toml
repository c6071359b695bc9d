[package]
name = "sowm"
version = "0.1.0"
edition = "2021"
publish = false

[dependencies]
rand = "0.8"
users = "0.11"
interprocess = "2"
ctrlc = "3"
directories = "5"
toml = "0.8"
serde = { version = "1", features = ["derive"] }
walkdir = "2"
clap = { version = "4", features = ["derive"] }

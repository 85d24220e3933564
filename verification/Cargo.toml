[package]
name = "seek"
version = "0.1.0"
edition = "2021"
publish = false

[dependencies]
clap = { version = "4", features = ["derive"] }
colored = "2"
globset = "0.4"
indicatif = "0.17"
regex = "1"
walkdir = "2"

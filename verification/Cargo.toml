[package]
name = "pianote"
version = "0.1.0"
edition = "2021"
publish = false

[dependencies]
anyhow = "1"
clap = { version = "4", features = ["derive"] }
cpal = "0.14"
fluidlite = "0.2"
midir = "0.9"
wmidi = "4"

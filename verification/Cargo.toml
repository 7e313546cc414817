[package]
name = "specdown"
version = "0.8.0"
edition = "2021"
publish = false

[dependencies]
clap = "=2.34.0"
comrak = { version = "=0.8.2", default-features = false }

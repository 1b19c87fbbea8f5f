[package]
name = "key_relay"
version = "0.1.0"
edition = "2021"
publish = false

[dependencies]
clap = { version = "3", features = ["derive"] }
crossterm = "0.25"
reqwest = { version = "0.11", default-features = false, features = ["blocking"] }

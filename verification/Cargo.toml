[package]
name = "rslox"
version = "0.1.0"
edition = "2021"
publish = false

[dependencies]
owo-colors = "4"
thiserror = "1"
clap = { version = "4", features = ["derive"] }

[package]
name = "eddy"
version = "0.1.0"
edition = "2021"
publish = false

[dependencies]
crossterm = { version = "0.29", features = ["osc52"] }

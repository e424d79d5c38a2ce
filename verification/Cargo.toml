[package]
name = "feedboard"
version = "0.1.0"
edition = "2021"
publish = false

[dependencies]
crossterm = "0.25"
roux = { version = "2", features = ["blocking"] }
tui = "0.19"

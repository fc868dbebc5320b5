[package]
name = "simdesk"
version = "0.1.0"
edition = "2021"
publish = false

[dependencies]
ratatui = "0.29"
crossterm = "0.28"
glam = "0.29"
image = { version = "0.25", default-features = false }

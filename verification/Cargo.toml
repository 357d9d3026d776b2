[package]
name = "minimal_browser"
version = "0.1.0"
edition = "2021"
publish = false

[dependencies]
serde_json = "1"
wry = "*"
tao = "*"

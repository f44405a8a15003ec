[package]
name = "teyvat_shell"
version = "0.1.0"
edition = "2021"
publish = false

[dependencies]
url = "2"
tauri-plugin-deep-link = "0.1"

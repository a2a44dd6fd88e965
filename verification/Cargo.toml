[package]
name = "sidecar_shell"
version = "0.1.0"
edition = "2021"
publish = false

[dependencies]
window-vibrancy = "0.4"

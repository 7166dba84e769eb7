[package]
name = "pane_butler"
version = "0.1.0"
edition = "2021"
publish = false

[dependencies]
zellij-tile = "*"
serde = { version = "*", features = ["derive"] }
serde_json = "*"

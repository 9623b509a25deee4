[package]
name = "linux_3_finger_drag"
version = "0.1.0"
edition = "2021"
publish = false

[dependencies]
regex = "1"
input-linux = "*"
nix = "*"
serde = { version = "1", features = ["derive"] }
serde_json = "1"
signal-hook = "0.3"

[package]
name = "functerm"
version = "0.1.0"
edition = "2021"
publish = false

[dependencies]
anyhow = "1"
base64-turbo = "*"
fs-err = "*"
nanoid = "*"
notify = "*"
schemars = "*"
serde = { version = "1", features = ["derive"] }
shell-words = "*"
sonic-rs = "*"
strum = { version = "*", features = ["derive"] }
which = "*"

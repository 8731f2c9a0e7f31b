[package]
name = "picoo_desktop"
version = "0.1.0"
edition = "2021"
publish = false

[dependencies]
qrcode = "*"
auto-launch = "*"
serde = { version = "1", features = ["derive"] }
serde_json = "1"

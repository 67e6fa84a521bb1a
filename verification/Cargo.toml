[package]
name = "wifi_qr"
version = "0.1.0"
edition = "2021"
publish = false

[dependencies]
qrcode-generator = "*"
clap = { version = "*", features = ["derive"] }

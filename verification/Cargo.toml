[package]
name = "paper_plane"
version = "0.1.0"
edition = "2021"
publish = false

[dependencies]
regex = "1"
qrcode-generator = "4"
gettext-rs = "0.7"
locale_config = "0.3"
image = { version = "0.24", default-features = false, features = ["png", "jpeg"] }

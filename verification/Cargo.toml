[package]
name = "region_select"
version = "0.1.0"
edition = "2021"
publish = false

[dependencies]
anyhow = "=1.0.104"
bardecoder = "=0.5.0"
image = { version = "=0.24.9", default-features = false, features = ["png"] }

[dev-dependencies]
qrcode = { version = "*", default-features = false }

[package]
name = "gpui"
version = "0.1.0"
edition = "2021"
publish = false

[dependencies]
seahash = "4.1"
etagere = "0.2"
image = { version = "0.25", default-features = false, features = ["png", "jpeg", "gif", "webp", "bmp", "tiff", "ico", "pnm"] }
serde = { version = "1", features = ["derive"] }
serde_json = "1"
uuid = { version = "1", features = ["v4"] }
parking_lot = "0.12"

[package]
name = "jakar_engine"
version = "0.1.0"
edition = "2021"
publish = false

[dependencies]
image = { version = "=0.25.10", default-features = false, features = ["png", "jpeg", "gif", "bmp", "ico", "tiff", "tga", "pnm", "hdr", "webp"] }
winit = "=0.30.13"

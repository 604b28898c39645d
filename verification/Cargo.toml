[package]
name = "hotline"
version = "0.1.0"
edition = "2021"
publish = false

[dependencies]
ddsfile = "0.5"
serde = { version = "1", features = ["derive"] }
serde_json = "1"
stb_image_rust = "*"
stb_image_write_rust = "*"

[package]
name = "photolib"
version = "0.1.0"
edition = "2021"
publish = false

[dependencies]
base64 = "*"
dotenvy = "*"
image = { version = "*", default-features = false, features = ["jpeg", "png"] }
rexif = "*"
serde = { version = "*", features = ["derive"] }
serde_json = "*"
sha2 = "*"
walkdir = "*"

[package]
name = "kms_capture"
version = "0.1.0"
edition = "2021"
publish = false

[dependencies]
image = { version = "*", default-features = false, features = ["png"] }
drm = "*"
drm-fourcc = "*"
rustix = { version = "*", features = ["mm"] }
base64 = "*"

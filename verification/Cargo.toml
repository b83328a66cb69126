[package]
name = "tesseract_plumbing"
version = "0.1.0"
edition = "2021"
publish = false

[dependencies]
leptonica-plumbing = "*"
tesseract-sys = "*"
thiserror = "1"

[dev-dependencies]
image = { version = "*", default-features = false }

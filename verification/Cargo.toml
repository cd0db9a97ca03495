[package]
name = "qp_image"
version = "0.1.0"
edition = "2021"
publish = false

[dependencies]
brotli = "7"
clap = { version = "4", features = ["derive"] }
image = "0.25"

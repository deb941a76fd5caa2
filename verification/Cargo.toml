[package]
name = "gst_thumbnailers"
version = "0.1.0"
edition = "2021"
publish = false

[dependencies]
png = "=0.18.1"
image = { version = "=0.25.10", default-features = false, features = ["png", "jpeg"] }
clap = { version = "=4.6.7", features = ["derive"] }

[package]
name = "hydroxite"
version = "0.1.0"
edition = "2021"
publish = false

[dependencies]
syntect = { version = "=5.3.0", default-features = false, features = ["default-fancy"] }
eframe = { version = "=0.24.1", default-features = false, features = ["glow", "default_fonts"] }
image = { version = "=0.24.9", default-features = false, features = ["png"] }

[package]
name = "oxide_reader"
version = "0.1.0"
edition = "2021"
publish = false

[dependencies]
pdfium-render = "=0.8.37"
eframe = { version = "=0.24.1", default-features = false, features = ["default_fonts", "glow", "x11"] }
rfd = { version = "0.14", default-features = false, features = ["xdg-portal", "tokio"] }

[package]
name = "feed"
version = "0.1.0"
edition = "2021"
publish = false

[dependencies]
eframe = { version = "*", default-features = false, features = ["glow", "x11", "default_fonts"] }
rfd = { version = "*", default-features = false, features = ["xdg-portal", "tokio"] }
serialport = { version = "*", default-features = false }
rubato = "*"

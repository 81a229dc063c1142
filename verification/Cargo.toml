[package]
name = "slickrun"
version = "0.1.0"
edition = "2021"
publish = false

[dependencies]
arboard = { version = "=3.7.0", default-features = false }
dirs = "=7.0.0"
eframe = { version = "=0.31.1", default-features = false, features = ["glow", "default_fonts", "x11"] }
global-hotkey = "=0.9.0"
gtk = "=0.18.2"
libc = "=0.2.191"
serde = { version = "=1.0.229", features = ["derive"] }
serde_json = "=1.0.154"
tray-icon = "=0.26.1"
x11rb = "=0.14.0"

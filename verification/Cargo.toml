[package]
name = "screengrab"
version = "0.1.0"
edition = "2021"
publish = false

[dependencies]
custom_error = "1"
winapi = { version = "0.3", features = ["dwmapi", "minwindef", "windef", "wingdi", "winuser"] }

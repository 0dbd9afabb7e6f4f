[package]
name = "xdd_tray"
version = "0.1.0"
edition = "2021"
publish = false

[dependencies]
minhook-sys = "=0.1.1"
windows = { version = "=0.52.0", features = ["Win32_Foundation", "Win32_UI_Shell", "Win32_UI_WindowsAndMessaging"] }

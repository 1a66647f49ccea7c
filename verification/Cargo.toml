[package]
name = "ergonomic"
version = "0.1.0"
edition = "2021"
publish = false

[dependencies]
core-foundation = "=0.10.1"
log = "=0.4.34"
serde = { version = "=1.0.229", features = ["derive"] }
windows = { version = "=0.62.2", features = ["Win32_UI_Input_KeyboardAndMouse"] }

[package]
name = "rofi_faye"
version = "0.1.0"
edition = "2021"
publish = false

[dependencies]
faye = { version = "=0.6.3", default-features = false }
copypasta-ext = { version = "=0.4.4", features = ["osc52"] }
rofi-mode = "=0.6.0"
rofi-plugin-sys = "=0.7.0"

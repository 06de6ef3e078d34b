[package]
name = "palette_toggle"
version = "0.1.0"
edition = "2021"
publish = false

[dependencies]
log = "*"
tauri = { version = "2", default-features = false }
tauri-plugin-global-shortcut = "2"

[package]
name = "sticky_notes"
version = "0.1.0"
edition = "2021"
publish = false

[dependencies]
anyhow = "1"
core-foundation = "0.10"
core-graphics = "0.24"
serde = { version = "1", features = ["derive"] }
serde_json = "1"
tauri = { version = "2", default-features = false, features = ["wry"] }
tauri-plugin-store = "2"

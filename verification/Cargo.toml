[package]
name = "bluemap_renderer"
version = "0.1.0"
edition = "2021"
publish = false

[dependencies]
chrono = "0.4"
regex = "1"
serde = { version = "1", features = ["derive"] }
serde_json = "1"
uuid = { version = "1", features = ["v4"] }
sysinfo = { version = "0.37", default-features = false, features = ["system"] }
tauri = { version = "2", default-features = false }

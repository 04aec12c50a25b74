[package]
name = "desktop_backend"
version = "0.1.0"
edition = "2021"
publish = false

[dependencies]
reqwest = { version = "=0.12.28", default-features = false }
serde = { version = "=1.0.229", features = ["derive"] }
tauri = { version = "=2.12.5", default-features = false }
tokio = { version = "=1.54.1", features = ["rt", "sync"] }
warp = { version = "=0.3.7", default-features = false }

[dev-dependencies]
tokio = { version = "=1.54.1", features = ["net", "rt", "sync", "time"] }

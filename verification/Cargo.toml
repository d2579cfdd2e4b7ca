[package]
name = "openvy"
version = "0.1.0"
edition = "2021"
publish = false

[dependencies]
serde = { version = "1", features = ["derive"] }
anyhow = "1"
chrono = { version = "0.4", default-features = false, features = ["std", "now", "serde"] }
tokio = { version = "1", features = ["rt", "time"] }
image = { version = "0.25", default-features = false }
rusty-tesseract = "*"
enigo = "*"

[package]
name = "hermanar"
version = "0.6.1"
edition = "2021"
publish = false

[dependencies]
zstd = "0.13"
chrono = "0.4"
rusqlite = { version = "0.31", features = ["bundled"] }
serde = { version = "1", features = ["derive"] }
serde_json = "1"
dirs = "5"
printpdf = "0.7"
image = { version = "0.24", default-features = false, features = ["png", "jpeg"] }

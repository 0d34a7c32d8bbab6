[package]
name = "viraith"
version = "0.1.0"
edition = "2021"
publish = false

[dependencies]
git2 = { version = "*", default-features = false }
chrono = "*"
serde = { version = "*", features = ["derive"] }
uuid = { version = "*", features = ["v4"] }
rusqlite = { version = "*", features = ["bundled"] }
parking_lot = "*"
notify = "*"

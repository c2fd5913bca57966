[package]
name = "voxely"
version = "0.1.0"
edition = "2021"
publish = false

[dependencies]
httpdate = "1"
chrono = { version = "0.4", default-features = false, features = ["std", "clock"] }
serde = { version = "1", features = ["derive"] }
serde_json = "1"
thiserror = "2"

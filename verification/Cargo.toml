[package]
name = "api-model"
version = "0.1.0"
edition = "2021"
publish = false

[dependencies]
chrono = { version = "=0.4.45", default-features = false, features = ["std", "clock", "serde"] }
hex = "=0.4.3"
ipnetwork = "=0.20.0"
itertools = "=0.15.0"
serde = { version = "=1.0.229", features = ["derive"] }
sha2 = "=0.10.9"
thiserror = "=2.0.21"
uuid = { version = "=1.29.0", features = ["v4", "serde"] }

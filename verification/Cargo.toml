[package]
name = "course_engine"
version = "0.1.0"
edition = "2021"
publish = false

[dependencies]
argon2 = "*"
serde_json = "*"
serde = { version = "*", features = ["derive"] }
uuid = { version = "*", features = ["v4"] }
chrono = "*"
jsonwebtoken = "*"
reqwest = { version = "*", default-features = false, features = ["blocking", "json"] }

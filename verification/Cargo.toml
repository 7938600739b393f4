[package]
name = "pos_core"
version = "0.1.0"
edition = "2021"
publish = false

[dependencies]
bcrypt = "*"
cuid2 = "*"
chrono = "*"
dotenvy = "*"
serde = { version = "*", features = ["derive"] }
serde_json = "*"

[package]
name = "patronymic"
version = "0.1.0"
edition = "2021"
publish = false

[dependencies]
file = "*"
rand = "*"
serde = { version = "*", features = ["derive"] }
serde_json = "*"

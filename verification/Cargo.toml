[package]
name = "local_user"
version = "0.1.0"
edition = "2021"
publish = false

[dependencies]
anyhow = "1"
async-trait = "0.1"
bcrypt = "0.10"
captcha = "0.0.8"
chrono = "0.4"
tracing = "0.1"
uuid = { version = "0.8", features = ["v4"] }

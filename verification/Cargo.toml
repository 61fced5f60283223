[package]
name = "tontine_auth"
version = "0.1.0"
edition = "2021"
publish = false

[dependencies]
bcrypt = "=0.19.3"
jsonwebtoken = { version = "=11.1.0", default-features = false, features = ["rust_crypto"] }
serde_json = "=1.0.151"
serde = { version = "=1.0.229", features = ["derive"] }
chrono = "=0.4.45"
uuid = { version = "=1.27.0", features = ["v4"] }

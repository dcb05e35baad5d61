[package]
name = "password_schemes"
version = "0.1.0"
edition = "2021"
publish = false

[dependencies]
anyhow = "1"
argon2 = { version = "0.5", features = ["std"] }
axum = "0.7"
bcrypt = "0.15"
futures-util = "0.3"
http = "1"
pbkdf2 = { version = "0.12", features = ["simple", "std"] }
rand = "0.8"
rand_chacha = "0.3"
serde = { version = "1", features = ["derive"] }
thiserror = "1"
tokio = { version = "1", features = ["macros", "rt", "rt-multi-thread"] }
tracing = "0.1"
url = { version = "2", features = ["serde"] }
zeroize = "1"
zxcvbn = "3"

[dev-dependencies]
serde_json = "1"

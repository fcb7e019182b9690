[package]
name = "authcore"
version = "0.1.0"
edition = "2021"
publish = false

[dependencies]
argon2 = "0.5"
jsonwebtoken = { version = "9", default-features = false }
serde_json = "1"
serde = { version = "1", features = ["derive"] }
chrono = "0.4"
actix-web = "4"
sqlx = { version = "0.8", default-features = false, features = ["postgres", "runtime-tokio"] }
dotenv = "0.15"
tracing = "0.1"
tracing-actix-web = "0.7"
tracing-subscriber = "0.3"

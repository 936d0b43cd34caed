[package]
name = "user_registration"
version = "0.1.0"
edition = "2021"
publish = false

[dependencies]
pbkdf2 = { version = "=0.12.2", features = ["simple", "std"] }
chrono = "=0.4.45"
serde = { version = "=1.0.229", features = ["derive"] }
serde_json = "=1.0.151"
sqlx = { version = "=0.9.0", default-features = false, features = ["postgres", "runtime-tokio", "chrono", "derive"] }
async-nats = "=0.50.0"
ntex = { version = "=3.12.3", features = ["tokio"] }
fastrace = "=0.7.19"
dotenv = "=0.15.0"
futures = "=0.3.34"

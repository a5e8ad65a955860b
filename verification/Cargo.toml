[package]
name = "sinapis"
version = "0.1.0"
edition = "2021"
publish = false

[dependencies]
pilota = "=0.13.1"
ahash = "=0.8.12"
chrono = "=0.4.45"
serde_json = "=1.0.154"
apache_age = "=0.6.6"
tokio-postgres = "=0.7.18"
tokio = { version = "=1.54.1", features = ["time", "rt"] }
volo-grpc = "=0.12.2"
serde = { version = "=1.0.229", features = ["derive"] }
argon2 = "=0.6.0"

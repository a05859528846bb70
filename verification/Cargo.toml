[package]
name = "bbs_core"
version = "0.1.0"
edition = "2021"
publish = false

[dependencies]
actix-cors = "=0.5.4"
actix-web = "=3.3.3"
actix-web-validator = "=2.2.0"
anyhow = "=1.0.104"
base64 = "=0.13.1"
chrono = { version = "=0.4.45", features = ["serde"] }
derive_more = "=0.99.20"
diesel = { version = "=1.4.8", features = ["mysql", "r2d2", "chrono"] }
dotenv = "=0.15.0"
env_logger = "=0.8.4"
futures = "=0.3.34"
jsonwebtoken = "=7.2.0"
lazy_static = "=1.5.1"
mime_guess = "=2.0.5"
nanoid = "=0.3.0"
r2d2 = "=0.8.10"
rusoto_core = "=0.45.0"
rusoto_s3 = "=0.45.0"
sentry = "=0.23.0"
sentry-actix = "=0.23.0"
serde = { version = "=1.0.229", features = ["derive"] }
serde_derive = "=1.0.229"
serde_json = "=1.0.154"
time = "=0.2.27"
validator = { version = "=0.12.0", features = ["derive"] }

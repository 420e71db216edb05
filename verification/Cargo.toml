[package]
name = "dog_walking"
version = "0.1.0"
edition = "2021"
publish = false

[dependencies]
actix-web = "=4.15.0"
bson = { version = "=3.1.0", features = ["chrono-0_4"] }
chrono = "=0.4.45"
dotenv = "=0.15.0"
env_logger = "=0.11.11"
futures = "=0.3.34"
log = "=0.4.34"
mongodb = "=3.9.1"
serde = { version = "=1.0.229", features = ["derive"] }

[package]
name = "conduit"
version = "0.1.0"
edition = "2021"
publish = false

[dependencies]
actix-web = { version = "0.7", default-features = false }
chrono = { version = "0.4", features = ["serde"] }
diesel = { version = "1.4", features = ["postgres", "chrono", "r2d2"] }
dotenv = "0.15"
env_logger = "0.6"
jsonwebtoken = "7"
log = "0.4"
pbkdf2 = "0.3"
rand = "0.7"
regex = "1"
serde = { version = "1", features = ["derive"] }
serde_json = { version = "1", features = ["raw_value"] }
slug = "0.1"

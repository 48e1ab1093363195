[package]
name = "blog"
version = "0.1.0"
edition = "2021"
publish = false

[dependencies]
magic-crypt = "3"
argon2 = "0.5"
actix-web = "4"
actix-identity = "0.8"
actix-session = { version = "0.10", features = ["cookie-session"] }
actix-web-flash-messages = { version = "0.5", features = ["cookies"] }
handlebars = "6"
serde = { version = "1", features = ["derive"] }
serde_json = "1"
anyhow = "1"
env_logger = "0.11"
dotenv = "0.15"

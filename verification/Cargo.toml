[package]
name = "auth_service"
version = "0.1.0"
edition = "2021"
publish = false

[dependencies]
base64 = "0.22"
bcrypt = "0.15"
chrono = { version = "0.4", features = ["serde"] }
chrono-tz = "0.10"
email_address = "0.2"
jsonwebtoken = "9"
nanoid = "0.4"
rand = "0.8"
regex = "1"
serde = { version = "1", features = ["derive"] }
serde_json = "1"
sha2 = "0.10"
uuid = { version = "1", features = ["v4", "serde"] }
actix-cors = "0.7"
actix-rt = "2"
actix-web = "4"
dotenv = "0.15"
env_logger = "0.11"
lettre = { version = "0.11", default-features = false, features = ["builder", "smtp-transport", "rustls-tls"] }
listenfd = "1"
sea-orm = { version = "1", default-features = false, features = ["macros", "with-chrono", "with-json", "with-uuid", "sqlx-postgres", "runtime-tokio-rustls"] }

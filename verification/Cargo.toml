[package]
name = "file_store"
version = "0.1.0"
edition = "2021"
publish = false

[dependencies]
actix-multipart = "0.4"
actix-web = { version = "4", default-features = false, features = ["macros"] }
anyhow = "1"
bytes = "1"
chrono = { version = "0.4", default-features = false, features = ["clock", "std"] }
dotenv = "0.15"
env_logger = { version = "0.9", default-features = false }
futures = "0.3"
infer = "0"
mongodb = "2"
mongodb-gridfs = "0.2"
serde = { version = "1", features = ["derive"] }

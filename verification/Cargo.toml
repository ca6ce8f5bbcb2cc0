[package]
name = "debt_tracker_api"
version = "0.1.0"
edition = "2021"
publish = false

[dependencies]
actix-web = { version = "4", default-features = false, features = ["macros"] }
dotenv = "0.15"
futures = "0.3"
mongodb = "3"
serde = { version = "1", features = ["derive"] }
serde_json = "1"

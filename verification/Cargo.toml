[package]
name = "user_gateway"
version = "0.1.0"
edition = "2021"
publish = false

[dependencies]
actix-web = { version = "4", default-features = false, features = ["macros"] }
deadpool-postgres = "*"
serde = { version = "1", features = ["derive"] }
tokio-postgres = "0.7"

[package]
name = "storefront"
version = "0.1.0"
edition = "2021"
publish = false

[dependencies]
uuid = { version = "1", features = ["v4"] }
chrono = "0.4"
argon2 = { version = "0.5", features = ["std"] }
surrealdb = { version = "=1.0.0-beta.8", default-features = false, features = ["kv-mem"] }
actix-web = "4"
serde = { version = "1", features = ["derive"] }
dotenv = "0.15"

[package]
name = "chat_backend"
version = "0.1.0"
edition = "2021"
publish = false

[dependencies]
actix = "=0.13.5"
actix-http = { version = "=3.19.0", default-features = false, features = ["ws"] }
actix-web = { version = "=4.18.1", default-features = false, features = ["macros", "cookies", "ws"] }
actix-web-actors = "=4.3.1"
ammonia = "=4.2.4"
dotenv = "=0.15.0"
futures = "=0.3.34"
postgrest = "=1.6.0"
reqwest = { version = "=0.11.27", features = ["json"] }
sanity = "=0.1.1"
serde = { version = "=1.0.229", features = ["derive"] }
serde_json = "=1.0.154"
tera = { version = "=1.20.1", default-features = false }
tokio = { version = "=1.54.1", features = ["time"] }
tokio-stream = { version = "=0.1.19", features = ["time"] }

[package]
name = "kogan"
version = "0.1.0"
edition = "2021"
publish = false

[dependencies]
sanitize_html = "=0.10.0"
serenity = { version = "=0.11.7", features = ["collector"] }
tokio = { version = "=1.54.1", features = ["full"] }
reqwest = { version = "=0.11.27", features = ["json"] }
serde = { version = "=1.0.229", features = ["derive"] }
serde_derive = "=1.0.229"
serde_json = "=1.0.154"
mongodb = "=2.8.2"
tokio-stream = "=0.1.19"
rand = "=0.8.8"
dotenv = "=0.15.0"
graphql_client = "=0.16.0"

[package]
name = "anilist_bot"
version = "0.1.0"
edition = "2021"
publish = false

[dependencies]
html2md = "0.2"
poise = "0.6"
tokio = { version = "1", features = ["macros", "rt-multi-thread"] }
reqwest = { version = "0.11", default-features = false, features = ["json", "rustls-tls"] }
graphql_client = { version = "0.14", default-features = false }
serde = { version = "1", features = ["derive"] }
serde_json = "1"
dotenvy = "0.15"

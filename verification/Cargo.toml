[package]
name = "astrobuild"
version = "0.1.0"
edition = "2021"
publish = false

[dependencies]
actix-web = { version = "=4.18.1", default-features = false, features = ["macros"] }
actix-rt = "=2.15.0"
actix-cors = "=0.7.2"
actix-files = "=0.6.10"
async-graphql = { version = "=7.2.1", default-features = false, features = ["playground"] }
async-graphql-actix-web = "=7.2.1"
awmp = "=0.8.1"
base16 = "=0.2.1"
bson = "=2.15.0"
derive_more = "=0.99.20"
env_logger = { version = "=0.11.11", default-features = false }
futures = "=0.3.34"
jsonwebtoken = "=9.3.1"
lettre = { version = "=0.11.23", default-features = false, features = ["builder", "smtp-transport", "rustls-tls"] }
load-dotenv = "=0.1.2"
mongodb = "=2.8.2"
reqwest = { version = "=0.12.28", default-features = false, features = ["json", "multipart", "rustls-tls"] }
serde = { version = "=1.0.229", features = ["derive"] }
serde_json = "=1.0.154"
thiserror = "=1.0.69"
tracing-actix-web = "=0.7.25"

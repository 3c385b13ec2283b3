[package]
name = "ndex"
version = "0.1.0"
edition = "2021"
publish = false

[dependencies]
anyhow = "1"
async-recursion = "1"
axum = { version = "0.6", features = ["headers"] }
bcrypt = "0.15"
chrono = "0.4"
dotenv = "0.15"
http = "0.2"
jsonwebtoken = "9"
lettre = "0.11"
oauth2 = "4"
openssl = "0.10"
reqwest = { version = "0.11", features = ["json"] }
serde = { version = "1", features = ["derive"] }
serde_derive = "1"
serde_json = "1"
serde-jsonlines = "0.5"
sqlx = { version = "0.7", features = ["runtime-tokio", "postgres", "chrono", "json", "migrate"] }
tokio = { version = "1", features = ["full"] }
tower-http = { version = "0.4", features = ["cors"] }
tracing = "0.1"
tracing-subscriber = "0.3"
validator = { version = "0.16", features = ["derive"] }
validator_derive = "0.16"

[package]
name = "turfzone"
version = "0.1.0"
edition = "2021"
publish = false

[dependencies]
chrono = "0.4"
uuid = { version = "1", features = ["v4"] }
hex = "0.4"
hmac = "0.12"
sha2 = "0.10"
serde = { version = "1", features = ["derive"] }
serde_json = "1"
thiserror = "2"
async-trait = "0.1"
reqwest = { version = "0.12", default-features = false, features = ["json"] }
tokio = { version = "1", features = ["macros", "rt-multi-thread"] }
tracing = "0.1"
tracing-subscriber = { version = "0.3", features = ["env-filter"] }
sqlx = { version = "0.8", default-features = false, features = ["macros", "chrono", "uuid"] }
umbral = "*"
umbral-admin = "*"
umbral-auth = "*"
umbral-cli = "*"
umbral-health = "*"
umbral-openapi = "*"
umbral-permissions = "*"
umbral-rest = "*"
umbral-security = "*"
umbral-sessions = "*"
umbral-tasks = "*"

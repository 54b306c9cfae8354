[package]
name = "iban_engine"
version = "0.1.0"
edition = "2021"
publish = false

[dependencies]
anyhow = "1"
axum = { version = "*", features = ["macros"] }
clap = { version = "4", features = ["derive"] }
serde = { version = "1", features = ["derive"] }
serde_json = "1"
tokio = { version = "1", features = ["macros", "rt-multi-thread", "net", "signal"] }
tower-http = { version = "*", features = ["timeout", "trace"] }
tracing = "*"
tracing-subscriber = { version = "*", features = ["env-filter"] }
utoipa = { version = "*", features = ["axum_extras"] }
utoipa-rapidoc = { version = "*", features = ["axum"] }
utoipa-redoc = { version = "*", features = ["axum"] }

[dev-dependencies]
iban_validate = "*"

[package]
name = "postg"
version = "0.1.7"
edition = "2021"
publish = false

[dependencies]
postgres-types = "0.2"
anyhow = "1"
thiserror = "2"
tokio = { version = "1", features = ["full"] }
tracing = "0.1"
tracing-subscriber = { version = "0.3", features = ["env-filter", "fmt"] }
clap = { version = "4", features = ["derive"] }
serde = { version = "1", features = ["derive"] }
serde_json = "1"
sqlx = { version = "0.8", default-features = false, features = ["runtime-tokio", "postgres", "json"] }
axum = "0.8"
reqwest = { version = "0.12", default-features = false, features = ["blocking", "rustls-tls"] }
flate2 = "1"
tar = "0.4"
tempfile = "3"
futures = "0.3"
bytes = "1"
arrow = { version = "56", default-features = false }
parquet = { version = "56", default-features = false, features = ["arrow", "async"] }

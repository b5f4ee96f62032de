[package]
name = "poke_collection"
version = "0.1.0"
edition = "2021"
publish = false

[dependencies]
axum = "=0.8.9"
chrono = { version = "=0.4.45", features = ["serde"] }
dotenvy = "=0.15.7"
jsonwebtoken = "=9.3.1"
rustemon = { version = "=4.8.0", features = ["serialize"] }
serde = { version = "=1.0.229", features = ["derive"] }
serde_json = "=1.0.154"
sqlx = { version = "=0.8.6", default-features = false, features = ["runtime-tokio", "postgres", "chrono", "derive"] }
tcgdex_api = "=0.1.0"
tokio = { version = "=1.54.1", features = ["full"] }
tower-http = { version = "=0.6.11", features = ["cors"] }

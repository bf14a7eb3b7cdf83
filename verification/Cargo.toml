[package]
name = "curtailing"
version = "0.1.0"
edition = "2021"
publish = false

[dependencies]
axum = "0.7"
bs58 = "0.5"
dotenvy = "0.15"
envy = "0.4"
regex = "1"
serde = { version = "1", features = ["derive"] }
serde_json = "1"
sqlx = { version = "0.7", default-features = false, features = ["sqlite", "runtime-tokio", "migrate", "macros"] }
tokio = { version = "1", features = ["full"] }
tower-http = { version = "0.5", features = ["fs"] }
uuid = { version = "1", features = ["v4", "v7"] }

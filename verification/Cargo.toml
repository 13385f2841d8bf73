[package]
name = "city_weather"
version = "0.1.0"
edition = "2021"
publish = false

[dependencies]
askama = "0.12"
axum = "0.6"
axum-macros = "0.3"
reqwest = { version = "0.11", default-features = false, features = ["json", "rustls-tls"] }
serde = { version = "1", features = ["derive"] }
sqlx = { version = "0.7", default-features = false, features = ["macros", "postgres", "runtime-tokio-rustls"] }
tokio = { version = "1", features = ["full"] }

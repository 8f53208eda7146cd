[package]
name = "kidney_stones"
version = "0.1.0"
edition = "2021"
publish = false

[dependencies]
anyhow = "1"
argon2 = "0.5"
axum = { version = "0.6", features = ["headers"] }
axum-template = { version = "0", features = ["handlebars"] }
base16 = "0.2"
chrono = { version = "0.4", default-features = false, features = ["clock"] }
futures-util = "0.3"
git2 = { version = "0.18", default-features = false }
handlebars = "4"
once_cell = "1"
rand_core = { version = "0.6", features = ["getrandom"] }
reqwest = { version = "0.11", default-features = false }
rs-snowflake = "0"
serde = { version = "1", features = ["derive"] }
serde_json = "1"
sqlx = { version = "0.7", default-features = false, features = ["runtime-tokio", "postgres", "migrate", "macros"] }
tokio = { version = "1", features = ["full"] }
toml = "0.8"
tower-http = { version = "0.4", features = ["fs", "trace"] }

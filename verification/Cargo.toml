[package]
name = "diesel_demo"
version = "0.1.0"
edition = "2021"
publish = false

[dependencies]
chrono = { version = "=0.4.45", features = ["serde"] }
uuid = { version = "=1.29.0", features = ["v4", "serde"] }
rust-argon2 = "=2.1.0"
rand = "=0.8.8"
time = { version = "=0.3.55", features = ["formatting", "parsing", "serde"] }
serde = { version = "=1.0.229", features = ["derive"] }
serde_json = "=1.0.154"
jsonwebtoken = "=9.3.1"
axum = "=0.7.9"
axum-macros = "=0.4.2"
http = "=1.5.0"
tokio = { version = "=1.54.1", features = ["full"] }
reqwest = { version = "=0.12.28", default-features = false, features = ["json"] }
diesel = { version = "=2.3.14", features = ["postgres", "r2d2", "chrono", "uuid", "serde_json", "time"] }
dotenvy = "=0.15.7"
anyhow = "=1.0.104"

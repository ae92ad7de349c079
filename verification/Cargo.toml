[package]
name = "charades"
version = "0.1.0"
edition = "2021"
publish = false

[dependencies]
actix = "*"
actix-web = "*"
actix-web-actors = "*"
bb8 = "*"
chrono = "*"
diesel = { version = "*", default-features = false, features = ["postgres_backend", "chrono"] }
diesel-async = { version = "*", features = ["postgres", "bb8"] }
dotenvy = "*"
env_logger = "*"
log = "*"
redis = { version = "*", features = ["tokio-comp"] }
serde = { version = "*", features = ["derive"] }
serde_json = "*"

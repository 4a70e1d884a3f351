[package]
name = "api_server_rust"
version = "0.1.0"
edition = "2021"
publish = false

[dependencies]
bcrypt = "*"
validator = { version = "*", default-features = false }
actix-web = { version = "4", default-features = false, features = ["macros", "cookies"] }
sqlx = { version = "0.8", default-features = false, features = ["postgres", "runtime-tokio", "derive"] }
redis = { version = "*", default-features = false, features = ["aio", "tokio-comp"] }
tokio = { version = "1", features = ["sync"] }
serde = { version = "1", features = ["derive"] }
jsonwebtoken = { version = "9", default-features = false }
dotenvy = "*"
env_logger = { version = "*", default-features = false }
log = "*"

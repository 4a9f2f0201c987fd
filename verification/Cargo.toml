[package]
name = "fitness_league"
version = "0.1.0"
edition = "2021"
publish = false

[dependencies]
uuid = { version = "1", features = ["v4", "serde"] }
chrono = { version = "0.4", default-features = false, features = ["std", "clock", "serde"] }
serde = { version = "1", features = ["derive"] }
serde_json = "1"
actix-web = { version = "4", default-features = false, features = ["macros"] }
actix-cors = "0.7"
tracing-actix-web = "0.7"
sqlx = { version = "0.7", default-features = false, features = ["postgres", "uuid", "chrono", "runtime-tokio"] }
tokio = { version = "1", features = ["rt", "macros"] }
tracing = "0.1"
redis = { version = "0.25", default-features = false, features = ["tokio-comp", "aio"] }
jsonwebtoken = "9"
secrecy = "0.8"

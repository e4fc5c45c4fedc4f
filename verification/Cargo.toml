[package]
name = "smmo_bot"
version = "0.1.0"
edition = "2021"
publish = false

[dependencies]
chrono = "0.4"
serde = { version = "1", features = ["derive"] }
smmo-api = "*"
serenity = "0.10"
sqlx = { version = "0.5", features = ["postgres", "runtime-tokio-rustls", "macros"] }
tokio = { version = "1", features = ["macros", "rt-multi-thread"] }
log = "0.4"
log4rs = "1"
dotenv = "0.15"
svg = "0.10"
usvg = "0.15"
resvg = "0.15"
tiny-skia = "0.5"

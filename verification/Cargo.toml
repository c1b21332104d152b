[package]
name = "invok"
version = "0.1.0"
edition = "2021"
publish = false

[dependencies]
md5 = "0.7"
jsonwebtoken = "9"
serde_json = "1"
uuid = { version = "1", features = ["v4", "serde"] }
urlencoding = "2"
axum = { version = "0.6", features = ["multipart"] }
tokio = { version = "1", features = ["full"] }
hyper = "0.14"
http = "0.2"
reqwest = { version = "0.11", default-features = false, features = ["blocking", "json", "multipart"] }
redis = { version = "0.25", default-features = false, features = ["tokio-comp", "aio"] }
sea-orm = { version = "1", features = ["sqlx-sqlite", "runtime-tokio-rustls", "macros"] }
sea-orm-migration = { version = "1", features = ["sqlx-sqlite", "runtime-tokio-rustls"] }
bollard = "0.16"
futures-util = "0.3"
serde = { version = "1", features = ["derive"] }
tempfile = "3"
zip = { version = "0.6", default-features = false, features = ["deflate"] }
tar = "0.4"
thiserror = "1"
tracing = "0.1"
tracing-subscriber = { version = "0.3", default-features = false, features = ["fmt"] }
dotenvy = "0.15"
clap = "4"
dirs = "5"
argon2 = "0.5"
rand = "0.8"
rand_core = { version = "0.6", features = ["getrandom"] }
async-trait = "0.1"

[package]
name = "image_indexer"
version = "0.1.0"
edition = "2021"
publish = false

[dependencies]
actix-multipart = "0.7"
actix-web = { version = "4", default-features = false, features = ["macros"] }
async-trait = "0.1"
chrono = "0.4"
dotenvy = "0.15"
futures-util = "0.3"
image = { version = "0.25", default-features = false, features = ["bmp", "gif", "ico", "jpeg", "png", "tiff", "webp"] }
serde = { version = "1", features = ["derive"] }
sqlx = { version = "0.8", default-features = false, features = ["runtime-tokio", "sqlite"] }
thiserror = "2"
tokio = { version = "1", features = ["full"] }
tracing = "0.1"
tracing-subscriber = { version = "0.3", features = ["env-filter"] }
uuid = { version = "1", features = ["v4", "serde"] }

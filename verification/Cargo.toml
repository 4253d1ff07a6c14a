[package]
name = "spaghetti_rs"
version = "0.1.0"
edition = "2021"
publish = false

[dependencies]
axum = { version = "0.8", features = ["macros"] }
base64ct = { version = "1", features = ["alloc"] }
clap = { version = "4", features = ["derive"] }
dotenvy = "0.15"
nanoid = "0.4"
serde = { version = "1", features = ["derive"] }
serde_json = "1"
sha2 = "0.10"
sqlx = { version = "0.8", default-features = false, features = ["mysql", "runtime-tokio", "derive"] }
tokio = { version = "1", features = ["macros", "net", "rt-multi-thread"] }

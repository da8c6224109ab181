[package]
name = "galvanizedb"
version = "0.1.0"
edition = "2021"
publish = false

[dependencies]
anyhow = "1"
rustyline = { version = "*", default-features = false }
sqlx = { version = "*", default-features = false, features = ["sqlite", "runtime-tokio"] }
tokio = { version = "1", features = ["macros", "rt-multi-thread"] }

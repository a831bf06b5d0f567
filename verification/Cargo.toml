[package]
name = "kvlite"
version = "0.1.0"
edition = "2021"
publish = false

[dependencies]
sqlx = { version = "0.6", default-features = false, features = ["sqlite", "runtime-tokio-rustls"] }
tokio = { version = "1", features = ["macros", "rt-multi-thread"] }
clap = { version = "3", features = ["derive"] }
dirs = "*"

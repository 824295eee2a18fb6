[package]
name = "pooled_records"
version = "0.1.0"
edition = "2021"
publish = false

[dependencies]
actix-web = "*"
env_logger = "*"
r2d2 = "*"
r2d2_sqlite = "*"
rusqlite = { version = "*", features = ["bundled"] }
uuid = { version = "*", features = ["v4"] }

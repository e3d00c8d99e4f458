[package]
name = "file_sync"
version = "0.1.0"
edition = "2021"
publish = false

[dependencies]
md5 = "*"
chrono = "*"
serde = { version = "*", features = ["derive"] }
actix-web = "*"
actix-multipart = "*"
tokio = { version = "*", features = ["fs", "macros", "rt-multi-thread"] }
futures = "*"
clap = { version = "*", features = ["derive"] }
reqwest = { version = "*", default-features = false, features = ["blocking", "json", "multipart", "rustls-tls"] }
env_logger = "*"
log = "*"
anyhow = "*"

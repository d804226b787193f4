[package]
name = "ftp_manager"
version = "0.1.0"
edition = "2021"
publish = false

[dependencies]
askama = "=0.16.1"
axum = "=0.8.9"
futures-util = "=0.3.34"
serde = { version = "=1.0.229", features = ["derive"] }
suppaftp = { version = "=12.1.1", features = ["tokio"] }
tokio = { version = "=1.53.2", features = ["full"] }
tokio-stream = "=0.1.19"
tower-http = { version = "=0.7.1", features = ["compression-gzip", "fs"] }

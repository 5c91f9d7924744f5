[package]
name = "script_analyzer"
version = "0.1.0"
edition = "2021"
publish = false

[dependencies]
askama = "=0.12.1"
axum = { version = "=0.7.9", features = ["multipart"] }
axum-server = { version = "0.7", features = ["tls-rustls"] }
clap = { version = "=4.6.7", features = ["derive"] }
hyper = "=1.12.0"
log = "=0.4.34"
log4rs = "=1.4.0"
rand = "=0.8.8"
serde = { version = "=1.0.229", features = ["derive"] }
serde_json = "=1.0.154"
thiserror = "=1.0.69"
tokio = { version = "=1.54.1", features = ["full"] }
tower-http = { version = "=0.5.2", features = ["cors", "fs"] }
twelf = { version = "=0.15.0", features = ["yaml"] }

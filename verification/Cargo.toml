[package]
name = "account_server"
version = "0.1.0"
edition = "2021"
publish = false

[dependencies]
base64 = "=0.22.1"
urlencoding = "=2.1.3"
blake3 = "=1.8.7"
md5 = "=0.8.1"
argon2 = { version = "=0.5.3", features = ["std"] }
rsa = { version = "=0.9.10", features = ["sha2"] }
sha2 = { version = "=0.10.9", features = ["oid"] }
rand = "=0.8.8"
uuid = { version = "=1.29.0", features = ["v4"] }
http = "=1.5.0"
serde = { version = "=1.0.229", features = ["derive"] }
serde_json = "=1.0.154"
strum = { version = "=0.26.3", features = ["derive"] }
thiserror = "=2.0.21"
anyhow = "=1.0.104"
axum = { version = "=0.8.9", features = ["multipart"] }
axum-extra = { version = "=0.10.3", features = ["cookie", "typed-header"] }
tokio = { version = "=1.54.1", features = ["full"] }
config = "*"
dotenvy = "*"

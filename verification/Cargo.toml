[package]
name = "dross_manager"
version = "0.2.3"
edition = "2021"
publish = false

[dependencies]
semver = "=1.0.28"
rand = "=0.8.8"
rand_chacha = "=0.3.1"
chrono = "=0.4.45"
libsql = { version = "=0.9.30", default-features = false, features = ["remote"] }
base64 = "=0.22.1"
uuid = { version = "=1.29.0", features = ["v4", "serde"] }
serde = { version = "=1.0.229", features = ["derive"] }
jsonwebtoken = "=9.3.1"
log = "=0.4.34"
tokio = { version = "=1.54.1", features = ["sync", "net"] }
http = "=1.5.0"
time = "=0.3.55"
rmp-serde = "=1.3.1"
axum = "=0.8.9"
axum-extra = { version = "=0.12.6", features = ["cookie"] }
tower = "=0.5.3"
tower-http = { version = "=0.7.1", features = ["cors", "fs"] }
tower-sessions = "=0.15.0"
tower-sessions-core = { version = "=0.15.0", features = ["deletion-task"] }
lettre = { version = "=0.11.23", features = ["tokio1", "tokio1-native-tls"] }
shuttle-runtime = "=0.57.0"
shuttle-turso = "=0.57.0"

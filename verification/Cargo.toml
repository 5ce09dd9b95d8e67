[package]
name = "auth_session"
version = "0.1.0"
edition = "2021"
publish = false

[dependencies]
anyhow = "1"
argon2 = "0.5"
axum = "0.7"
axum-server = { version = "0.7", features = ["tls-rustls"] }
chrono = "0.4"
dashmap = "6"
diesel = { version = "2", default-features = false, features = ["postgres_backend", "chrono", "uuid"] }
diesel-async = { version = "0.5", features = ["postgres", "deadpool"] }
jsonwebtoken = "9"
oauth2 = "4"
reqwest = { version = "0.11", default-features = false, features = ["json", "rustls-tls"] }
rustls = "0.23"
rustls-pemfile = "2"
serde = { version = "1", features = ["derive"] }
serde_json = "1"
thiserror = "1"
tokio = { version = "1", features = ["rt-multi-thread", "macros", "net", "sync"] }
tower = "0.4"
tower-http = { version = "0.5", features = ["cors", "fs"] }
tracing = "0.1"
uuid = { version = "1", features = ["v4"] }

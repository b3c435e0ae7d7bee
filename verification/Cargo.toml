[package]
name = "chore_tracker"
version = "0.1.0"
edition = "2021"
publish = false

[dependencies]
anyhow = "=1.0.104"
axum = { version = "=0.8.9", features = ["macros", "multipart", "ws"] }
axum-extra = { version = "=0.12.6", features = ["cookie"] }
chrono = { version = "=0.4.45", features = ["serde"] }
diesel = { version = "=2.3.14", features = ["chrono", "r2d2", "sqlite"] }
diesel_migrations = "=2.3.2"
dotenvy = "=0.15.7"
juniper = { version = "=0.17.1", features = ["chrono"] }
juniper_axum = { version = "=0.3.0", features = ["subscriptions"] }
juniper_graphql_ws = { version = "=0.5.0", features = ["graphql-transport-ws", "graphql-ws"] }
lambda_http = "=1.3.2"
libsqlite3-sys = { version = "=0.38.2", features = ["bundled"] }
log = "=0.4.34"
mime_guess = "=2.0.5"
reqwest = { version = "=0.12.28", default-features = false, features = ["json", "rustls-tls"] }
rust-embed = { version = "=8.13.0", features = ["interpolate-folder-path"] }
serde = { version = "=1.0.229", features = ["derive"] }
tikv-jemallocator = "=0.6.1"
tokio = { version = "=1.54.1", features = ["full"] }
tower = "=0.5.3"
tower-http = { version = "=0.6.11", features = ["compression-full", "cors"] }
tracing = "=0.1.44"
urlencoding = "=2.1.3"
uuid = { version = "=1.29.0", features = ["serde", "v4", "v7"] }

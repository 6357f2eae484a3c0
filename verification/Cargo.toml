[package]
name = "link_server"
version = "0.1.0"
edition = "2021"
publish = false

[dependencies]
axum = "=0.8.9"
deadpool-diesel = { version = "=0.6.1", features = ["sqlite"] }
diesel = { version = "=2.3.14", features = ["sqlite", "returning_clauses_for_sqlite_3_35"] }
diesel_migrations = "=2.3.2"
dotenvy = "=0.15.7"
hex = "=0.4.3"
serde = { version = "=1.0.229", features = ["derive"] }
serde_json = "1"
sha2 = "=0.10.9"
tokio = { version = "=1.54.1", features = ["full"] }
tokio-util = { version = "=0.7.20", features = ["io"] }
tower-http = { version = "=0.6.11", features = ["cors", "fs"] }
tracing = "=0.1.44"
tracing-subscriber = { version = "=0.3.23", features = ["env-filter"] }
uuid = { version = "=1.29.0", features = ["v4"] }

[package]
name = "backend"
version = "0.1.0"
edition = "2021"
publish = false

[dependencies]
hyper = { version = "=0.14.32", features = ["client", "server", "http1", "tcp"] }
axum = { version = "=0.6.20", features = ["headers"] }
swagger = { version = "=6.5.3", features = ["client", "tcp", "http1"] }
serde = { version = "=1.0.229", features = ["derive"] }
serde_json = "=1.0.154"
futures = "=0.3.34"
tokio = { version = "=1.54.1", features = ["macros", "rt-multi-thread", "time", "sync"] }
percent-encoding = "=2.3.2"
thiserror = "=1.0.69"
tracing = "=0.1.44"
tracing-subscriber = "=0.3.23"
color-eyre = "=0.6.5"
tower = "=0.4.13"
tower-http = { version = "=0.4.4", features = ["cors"] }

[dev-dependencies]
regex = "=1.13.1"

[package]
name = "idle_proxy"
version = "0.1.0"
edition = "2021"
publish = false

[dependencies]
axum = "0.6"
clap = { version = "4", features = ["derive"] }
hyper = { version = "0.14", features = ["full"] }
state = "0.5"
tokio = { version = "1", features = ["full"] }
tower = { version = "0.4", features = ["timeout"] }
tower-http = { version = "0.4", features = ["trace"] }
tracing-subscriber = { version = "0.3", features = ["env-filter"] }
validator = "0.16"

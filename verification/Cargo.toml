[package]
name = "conduit_axum"
version = "0.1.0"
edition = "2021"
publish = false

[dependencies]
axum = { version = "0.6", features = ["headers"] }
conduit = "*"
conduit-router = "*"
http = "0.2"
hyper = { version = "0.14", features = ["stream"] }
sentry = { version = "0.29", default-features = false, features = ["tracing"] }
sentry-core = "0.29"
tokio = { version = "1", features = ["rt", "fs", "io-util"] }
tower = { version = "0.4", features = ["util"] }
tower-http = { version = "0.4", features = ["fs"] }
tracing = "0.1"
tracing-subscriber = { version = "0.3", features = ["env-filter"] }

[package]
name = "workshop_rustlab_2022"
version = "0.1.0"
edition = "2021"
publish = false

[dependencies]
axum = "0.5"
futures-util = "0.3"
rand = "0.8"
reqwest = { version = "0.11", default-features = false }
serde = { version = "1", features = ["derive"] }
serde_json = "1"
serde_qs = { version = "0.10", features = ["axum"] }
serde_with = "2"
tokio = { version = "1", features = ["macros", "rt", "sync", "time"] }
tower-http = { version = "0.3", features = ["trace"] }
tracing = "0.1"
tracing-subscriber = "0.3"

[package]
name = "smart_exporter"
version = "0.1.0"
edition = "2021"
publish = false

[dependencies]
anyhow = "1"
clap = { version = "4", features = ["derive"] }
dropshot = "0.9"
http = "0.2"
hyper = { version = "0.14", features = ["full"] }
prometheus-client = "0.22"
serde = { version = "1", features = ["derive"] }
serde_json = "1"
serde_path_to_error = "0.1"
slog = "2"
slog-async = "2"
slog-term = "2"
tokio = { version = "1", features = ["full"] }

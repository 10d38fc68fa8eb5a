[package]
name = "site24x7_exporter"
version = "0.1.0"
edition = "2021"
publish = false

[dependencies]
anyhow = "=1.0.104"
chrono = "=0.4.45"
clap = { version = "=4.6.7", features = ["derive", "cargo"] }
dotenv = "=0.15.0"
http = "=0.2.12"
hyper = { version = "=0.14.32", features = ["full"] }
lazy_static = "=1.5.1"
log = "=0.4.34"
prometheus = "=0.13.4"
regex = "=1.13.1"
reqwest = { version = "=0.11.27", default-features = false, features = ["rustls-tls"] }
serde = { version = "=1.0.229", features = ["derive"] }
serde_json = "=1.0.154"
serde_path_to_error = "0.1"
simplelog = "=0.12.2"
strum = { version = "=0.24.1", features = ["derive"] }
tokio = { version = "=1.54.1", features = ["full"] }

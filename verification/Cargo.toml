[package]
name = "rds_exporter"
version = "0.1.0"
edition = "2021"
publish = false

[dependencies]
aws_volume_limit_calculator = "*"
async-trait = "0.1"
chrono = "0.4"
clap = "3"
futures = "0.3"
hyper = { version = "0.14", features = ["server", "http1", "tcp"] }
lazy_static = "1"
prometheus = "0.13"
rusoto_core = { version = "0.48", default-features = false, features = ["rustls"] }
rusoto_rds = { version = "0.48", default-features = false, features = ["rustls"] }
rusoto_cloudwatch = { version = "0.48", default-features = false, features = ["rustls"] }
serde = { version = "1", features = ["derive"] }
serde_yaml = "0.8"
tokio = { version = "1", features = ["full"] }

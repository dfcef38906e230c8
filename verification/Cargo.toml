[package]
name = "dbactor"
version = "0.1.0"
edition = "2021"
publish = false

[dependencies]
mysql_async = { version = "=0.37.1", default-features = false, features = ["minimal-rust"] }
tokio = { version = "=1.53.2", features = ["full"] }
futures = "=0.3.34"
log = "=0.4.34"
env_logger = "=0.11.11"

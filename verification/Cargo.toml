[package]
name = "run-http"
version = "0.1.0"
edition = "2021"
publish = false

[dependencies]
actix-web = { version = "4", default-features = false, features = ["macros"] }
clap = "4"
clap-markdown = "0.1"
env_logger = "0.11"
futures = "0.3"
log = "0.4"
tokio = { version = "1", features = ["full"] }
tokio-stream = { version = "0.1", features = ["io-util"] }

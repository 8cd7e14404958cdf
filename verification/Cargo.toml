[package]
name = "twitter_privacy"
version = "0.1.0"
edition = "2021"
publish = false

[dependencies]
chrono = "0.4"
dotenv = "0.15"
egg-mode = "*"
log = "0.4"
pretty_env_logger = "*"
tokio = { version = "1", features = ["rt"] }

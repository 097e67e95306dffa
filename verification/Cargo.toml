[package]
name = "price_watch"
version = "0.1.0"
edition = "2021"
publish = false

[dependencies]
scraper = "*"
serde = { version = "*", features = ["derive"] }
reqwest = { version = "*", default-features = false, features = ["blocking", "rustls-tls"] }
tokio = { version = "*", features = ["macros", "rt-multi-thread"] }
aws-config = "*"
aws-sdk-sns = "*"
aws_lambda_events = "*"
lambda_runtime = "*"
dotenv = "*"
log = "*"
simple_logger = "*"

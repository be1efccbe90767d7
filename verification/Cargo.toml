[package]
name = "data_processing"
version = "0.1.0"
edition = "2021"
publish = false

[dependencies]
actix-web = "*"
actix-web-opentelemetry = "*"
awc = "*"
log = "*"
simplelog = "*"
tokio = { version = "*", features = ["time"] }

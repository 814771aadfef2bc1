[package]
name = "log4rs_fluentd"
version = "0.1.0"
edition = "2021"
publish = false

[dependencies]
anyhow = "1"
log = "0.4"
log4rs = "*"
poston = "*"
serde = { version = "1", features = ["derive"] }

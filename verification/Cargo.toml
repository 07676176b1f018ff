[package]
name = "adc_flow"
version = "0.1.0"
edition = "2021"
publish = false

[dependencies]
serde_json = "=1.0.151"
hyper = { version = "=0.14.32", features = ["client", "http1", "tcp"] }
tokio = { version = "=1.53.2", features = ["rt"] }
log = "0.4"

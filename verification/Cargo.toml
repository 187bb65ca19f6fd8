[package]
name = "tonic_async_interceptor"
version = "0.12.0"
edition = "2021"
publish = false

[dependencies]
bytes = "1"
http = "1"
http-body = "1"
http-body-util = "0.1"
pin-project = "1"
tonic = { version = "0.12", default-features = false }
tower-layer = "0.3"
tower-service = "0.3"

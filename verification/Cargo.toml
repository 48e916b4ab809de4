[package]
name = "check_http"
version = "0.1.0"
edition = "2021"
publish = false

[dependencies]
bytes = "1"
encoding_rs = "0.8"
mime = "0.3"
reqwest = { version = "0.11", default-features = false, features = ["rustls-tls"] }
typed-builder = "0.18"

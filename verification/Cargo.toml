[package]
name = "tower-h3"
version = "0.1.0"
edition = "2021"
publish = false

[dependencies]
bytes = "1"
futures = "0.3"
h3 = "=0.0.4"
h3-quinn = "=0.0.5"
http = "1"
http-body = "1"
http-body-util = "0.1"
quinn = "0.10"
rustls = "0.21"
rustls-native-certs = "0.6"
tokio = { version = "1", features = ["full"] }
tokio-util = "0.7"
tower = { version = "0.4", features = ["make"] }
tower-service = "0.3"
tracing-subscriber = { version = "0.3", features = ["env-filter"] }

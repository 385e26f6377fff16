[package]
name = "hyper_hickory"
version = "0.1.0"
edition = "2021"
publish = false

[dependencies]
webpki = "=0.22.4"
hyper = "=1.12.0"
hyper-util = { version = "=0.1.21", features = ["client-legacy", "tokio", "http1", "http2"] }
tower-service = "=0.3.3"
tokio = { version = "=1.54.1", features = ["net", "rt"] }
tokio-rustls = { version = "=0.26.6", default-features = false, features = ["ring", "tls12"] }
rustls-native-certs = "=0.8.5"
webpki-roots = "=0.26.11"
hickory-resolver = { version = "=0.25.2", features = ["tokio", "system-config", "tls-ring", "https-ring", "webpki-roots"] }
hyper-rustls = { version = "=0.27.10", default-features = false, features = ["ring", "http1", "http2", "native-tokio", "webpki-tokio", "tls12"] }
hyper-tls = "=0.6.0"
log = "=0.4.34"

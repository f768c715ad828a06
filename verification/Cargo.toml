[package]
name = "rumqttd_tls"
version = "0.1.0"
edition = "2021"
publish = false

[dependencies]
rustls = "0.23"
rustls-pemfile = "2"
thiserror = "1"
tokio = { version = "1", features = ["net", "io-util", "rt"] }
tokio-native-tls = "0.3"
tokio-rustls = "0.26"
tracing = "0.1"
x509-parser = "0.15"

[dev-dependencies]
rcgen = "0.12"

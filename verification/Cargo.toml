[package]
name = "tuic"
version = "0.1.0"
edition = "2021"
publish = false

[dependencies]
anyhow = "=1.0.104"
bytes = "=1.12.1"
rustls = { version = "=0.23.46", default-features = false, features = ["std"] }
rustls-pemfile = "=2.2.0"
rustls-native-certs = "=0.8.5"
serde = { version = "=1.0.229", features = ["derive"] }
socket2 = "=0.5.10"
socks5-proto = "=0.3.3"
socks5-server = "=0.8.3"
tokio = { version = "=1.54.1", features = ["net", "io-util", "rt", "macros", "time"] }
tracing = "=0.1.44"

[dev-dependencies]
uuid = { version = "=1.29.0", features = ["v4"] }

[package]
name = "tibber_subscribe"
version = "0.1.0"
edition = "2021"
publish = false

[dependencies]
chrono = "0.4"
http = "0.2"
influxdb = { version = "0.7", features = ["derive"] }
serde_json = "1"
tokio = { version = "1", features = ["macros", "rt-multi-thread", "time"] }
tracing = "0.1"
tracing-appender = "0.2"
tracing-subscriber = "0.3"
tungstenite = { version = "0.19", features = ["native-tls"] }

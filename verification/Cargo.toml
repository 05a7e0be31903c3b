[package]
name = "web_transport"
version = "0.1.0"
edition = "2021"
publish = false

[dependencies]
bytes = "=1.12.1"
flume = "=0.12.0"
futures = "0.3"
hex = "=0.4.3"
http = "=1.5.0"
js-sys = "0.3"
log = "0.4"
serde = { version = "1", features = ["derive"] }
thiserror = "2"
tokio = { version = "1", features = ["full"] }
tokio-quiche = "=0.10.0"
tracing = "0.1"
url = { version = "=2.5.8", features = ["serde"] }
web-streams = "=0.1.3"
web-sys = { version = "0.3", features = ["ReadableStream", "WritableStream", "WebTransport", "WebTransportReceiveStream", "WebTransportSendStream", "WebTransportError"] }
web-transport-proto = "=0.3.1"
web-transport-quinn = "0.5"
web-transport-trait = "=0.2.0"

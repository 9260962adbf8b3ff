[package]
name = "uog"
version = "0.1.0"
edition = "2021"
publish = false

[dependencies]
anyhow = "1"
clap = { version = "4", features = ["cargo"] }
env_logger = "0.11"
hyper-rustls = { version = "0.27", features = ["http2"] }
hyper-util = { version = "0.1", features = ["client-legacy", "http2", "tokio"] }
log = "0.4"
mimalloc = "0.1"
once_cell = "1"
prost = "0.13"
rustls = "0.23"
tokio = { version = "1", features = ["rt-multi-thread", "macros", "net", "time", "sync"] }
tokio-stream = "0.1"
tokio-util = "0.7"
tonic = { version = "0.12", features = ["tls", "tls-webpki-roots"] }
tower = "0.4"
uniffi = "0.28"
webpki-roots = "0.26"

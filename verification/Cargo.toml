[package]
name = "media_proxy"
version = "0.1.0"
edition = "2021"
publish = false

[dependencies]
tokio = { version = "1", features = ["rt-multi-thread", "net", "sync", "macros", "io-util"] }
tonic = "0.12"
prost = "0.13"
http = "1"
async-stream = "0.3"
log = "0.4"

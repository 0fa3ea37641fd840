[package]
name = "msquic_async"
version = "0.5.0"
edition = "2021"
publish = false

[dependencies]
bytes = "=1.12.1"
futures = "=0.3.34"
futures-io = "=0.3.34"
h3 = "=0.0.8"
h3-datagram = "=0.0.2"
hex = "=0.4.3"
libc = "=0.2.191"
msquic = { version = "=2.5.1-beta", default-features = false }
seera-msquic = { version = "=2.6.0-beta3", default-features = false, features = ["preview-api"] }
once_cell = "=1.21.4"
rangemap = "=1.8.0"
socket2 = "=0.6.5"
thiserror = "=2.0.21"
tokio = { version = "=1.54.1", features = ["full"] }
tokio-util = { version = "=0.7.20", features = ["full"] }
tracing = "=0.1.44"

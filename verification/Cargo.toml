[package]
name = "sockmap_relay"
version = "0.1.0"
edition = "2021"
publish = false

[dependencies]
slab = "*"
anyhow = "*"
clap = { version = "*", features = ["derive"] }
futures = "*"
libc = "*"
redbpf = "*"
socket2 = "*"
tokio = { version = "*", features = ["full"] }
tokio-socks = "*"
tokio-stream = "*"
tracing = "*"
tracing-subscriber = "*"

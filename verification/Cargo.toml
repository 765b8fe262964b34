[package]
name = "quicfs"
version = "0.1.0"
edition = "2021"
publish = false

[dependencies]
quiche = "=0.16.0"
ring = "=0.16.20"
mio = "=0.6.23"
url = "=2.5.8"
prost = "=0.11.9"
prost-types = "=0.11.9"
futures = "=0.3.34"
async-std = { version = "=1.13.2", features = ["attributes"] }
async-trait = "=0.1.92"
clap = { version = "=3.2.25", features = ["derive"] }
tokio = { version = "=1.54.1", features = ["fs", "io-util"] }
libp2p = { version = "0.54", default-features = false, features = ["async-std", "quic", "ping", "request-response", "macros", "ed25519"] }

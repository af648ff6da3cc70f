[package]
name = "tailscale-embassy-net"
version = "0.1.0"
edition = "2021"
publish = false

[dependencies]
embassy-futures = "=0.1.2"
embassy-net = { version = "=0.9.1", default-features = false, features = ["proto-ipv4", "medium-ip", "tcp", "udp", "dns"] }
embassy-net-driver-channel = "=0.4.0"
embassy-sync = "=0.8.0"
embassy-time = { version = "=0.5.1", features = ["std", "generic-queue-8"] }
embedded-io-async = "=0.7.0"
picoserve = { version = "=0.20.1", features = ["embassy"] }
rand_core = "=0.6.4"

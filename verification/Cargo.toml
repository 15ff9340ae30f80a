[package]
name = "packetguard"
version = "0.1.0"
edition = "2021"
publish = false

[dependencies]
pnet = "*"
netfilter_queue = "*"
nfq = "*"
serde = { version = "*", features = ["derive"] }
toml = "*"
log = "*"
env_logger = "*"

[package]
name = "capmux"
version = "0.1.0"
edition = "2021"
publish = false

[dependencies]
afpacket = "=0.2.3"
byteorder = "=1.5.0"
env_logger = "=0.11.11"
getopts = "=0.2.24"
log = "=0.4.34"
log-writer = { version = "=0.6.2", features = ["serde"] }
pcap-file = "=1.1.1"
serde = { version = "=1.0.229", features = ["derive"] }
serde_yaml = "=0.9.34"
thiserror = "=1.0.69"

[package]
name = "quic_endpoint"
version = "0.1.0"
edition = "2021"
publish = false

[dependencies]
async-macros = "=2.0.0"
async-std = "=1.13.2"
ed25519-dalek = "=1.0.0-pre.3"
futures = "=0.3.34"
libp2p-core = "=0.17.1"
log = "=0.4.34"
parity-multiaddr = "=0.8.0"
parking_lot = "=0.10.2"
quinn-proto = "=0.6.1"
serde = "=1.0.118"

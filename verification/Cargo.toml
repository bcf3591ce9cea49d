[package]
name = "stylus_toolkit"
version = "0.1.0"
edition = "2021"
publish = false

[dependencies]
alloy-primitives = "=0.3.3"
alloy-sol-types = "=0.3.1"
ed25519-compact = "=2.6.0"
mini-alloc = "=0.4.2"
ruint = { version = "=1.12.4", default-features = false }
stylus-sdk = "=0.4.3"

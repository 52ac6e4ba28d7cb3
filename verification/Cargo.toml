[package]
name = "poh_service"
version = "0.1.0"
edition = "2021"
publish = false

[dependencies]
core_affinity = "0.5"
log = "0.4"
solana-entry = "~1.14"
solana-measure = "~1.14"
solana-metrics = "~1.14"
solana-sdk = "~1.14"
solana-sys-tuner = "~1.14"

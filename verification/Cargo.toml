[package]
name = "solana_k8s_cluster"
version = "0.1.0"
edition = "2021"
publish = false

[dependencies]
clap = "2"
lazy_static = "1"
log = "0.4"
solana-logger = "*"

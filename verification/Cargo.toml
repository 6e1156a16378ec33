[package]
name = "swqos_rpc"
version = "0.1.0"
edition = "2021"
publish = false

[dependencies]
anyhow = "1"
async-trait = "0.1"
log = "0.4"
solana-commitment-config = "=3.1.1"
solana-rpc-client = "=3.0.14"
solana-rpc-client-api = "=3.0.14"
solana-sdk = "=3.0.0"
solana-transaction-status-client-types = "=3.0.14"
tracing = "0.1"

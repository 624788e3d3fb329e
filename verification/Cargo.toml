[package]
name = "block_repair"
version = "0.1.0"
edition = "2021"
publish = false

[dependencies]
crossbeam-channel = "=0.5.17"
dashmap = "=5.5.3"
log = "0.4"
solana-clock = "=3.1.1"
solana-entry = { version = "=4.2.2", features = ["agave-unstable-api"] }
solana-hash = { version = "=4.5.0", features = ["atomic"] }
solana-keypair = "=3.1.2"
solana-metrics = { version = "=4.2.2", features = ["agave-unstable-api"] }
solana-perf = { version = "=4.2.2", features = ["agave-unstable-api"] }
solana-pubkey = "=4.2.1"
solana-sha256-hasher = { version = "=3.1.0", features = ["sha2"] }
solana-signer = "=3.0.1"

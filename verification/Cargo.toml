[package]
name = "taiko_rpc"
version = "0.1.0"
edition = "2021"
publish = false

[dependencies]
alloy-consensus = { version = "=2.0.5", features = ["k256"] }
alloy-eips = "=2.0.5"
alloy-primitives = "=1.7.3"
alloy-rlp = "=0.3.17"
alloy-rpc-types-engine = "=2.0.5"
alloy-rpc-types-eth = "=2.0.5"
async-trait = "0.1"
eyre = "0.6"
jsonrpsee = { version = "=0.26.1", features = ["server-core", "macros"] }
reth-primitives-traits = "=0.3.2"
revm = { version = "=37.0.0", default-features = false, features = ["std"] }
revm-context = { version = "=16.0.0", default-features = false }
revm-context-interface = { version = "=17.0.0", default-features = false }
revm-database = { version = "=13.0.0", default-features = false }
revm-database-interface = { version = "=11.0.0", default-features = false }
revm-handler = { version = "=18.0.0", default-features = false }
revm-interpreter = { version = "=35.0.0", default-features = false }
revm-state = { version = "=11.0.0", default-features = false }
revm-inspectors = "=0.38.1"
serde_json = { version = "1", features = ["raw_value"] }
thiserror = "2"
tokio = { version = "1", features = ["rt", "rt-multi-thread", "sync", "time", "macros"] }

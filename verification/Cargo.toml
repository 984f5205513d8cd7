[package]
name = "shadow_reth_rpc"
version = "0.1.0"
edition = "2021"
publish = false

[dependencies]
alloy-eips = { version = "*", default-features = false, features = ["std"] }
alloy-primitives = "*"
eyre = "0.6"
hex = "0.4"
jsonrpsee = { version = "*", features = ["server", "macros"] }
reth = "*"
reth-node-ethereum = "*"
reth-primitives = "*"
serde = { version = "1", features = ["derive"] }
sqlx = { version = "*", features = ["sqlite", "runtime-tokio"] }

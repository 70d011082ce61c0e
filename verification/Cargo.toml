[package]
name = "offline_verify"
version = "0.1.0"
edition = "2021"
publish = false

[dependencies]
anyhow = "=1.0.104"
async-trait = "=0.1.92"
indexmap = { version = "=2.14.2", features = ["serde"] }
serde = { version = "=1.0.229", features = ["derive"] }
serde_json = { version = "=1.0.154", features = ["preserve_order"] }
snarkvm-console = "=1.0.0"
snarkvm-ledger-block = "=1.0.0"
snarkvm-ledger-query = { version = "=1.0.0", features = ["async"] }
snarkvm-synthesizer-process = "=1.0.0"
snarkvm-synthesizer-program = "=1.0.0"
snarkvm-synthesizer-snark = "=1.0.0"

[dev-dependencies]
snarkvm-console = { version = "=1.0.0", features = ["test"] }

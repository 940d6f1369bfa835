[package]
name = "zk_payroll"
version = "0.1.0"
edition = "2021"
publish = false

[dependencies]
anyhow = "=1.0.104"
ark-bn254 = "=0.4.0"
ark-ff = "=0.4.2"
ark-serialize = "=0.4.2"
base64 = "=0.22.1"
clap = { version = "=4.6.7", features = ["derive"] }
comfy-table = "=7.2.2"
dirs = "=5.0.1"
hex = "=0.4.3"
light-poseidon = "=0.2.0"
rand = "=0.8.8"
reqwest = { version = "=0.12.28", default-features = false, features = ["blocking", "json", "rustls-tls"] }
rusqlite = { version = "=0.31.0", features = ["bundled"] }
serde = { version = "=1.0.229", features = ["derive"] }
serde_json = "=1.0.154"
soroban-sdk = { version = "29", features = ["testutils"] }
stellar-strkey = "=1.0.0"
stellar-xdr = { version = "=22.1.0", features = ["curr", "std"] }

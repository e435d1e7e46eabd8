[package]
name = "randao"
version = "0.1.0"
edition = "2021"
publish = false

[dependencies]
sha3 = "=0.10.9"
hex = "=0.4.3"
rand = "=0.8.8"
bip0039 = "=0.14.2"
bip32 = { version = "=0.6.0", features = ["alloc"] }
libsecp256k1 = "=0.7.2"
secp256k1 = "=0.27.0"
eth_checksum = "=0.1.2"
redis = "=0.23.5"
serde = { version = "=1.0.229", features = ["derive"] }
serde_json = "=1.0.154"
web3 = "=0.19.0"
tokio = { version = "=1.54.1", features = ["full"] }
reqwest = "=0.11.27"
actix-web = "=4.18.1"
actix-cors = "=0.6.5"
hyper = { version = "=0.14.32", features = ["full"] }
prometheus = { version = "=0.13.4", default-features = false }
clap = { version = "=3.2.25", features = ["derive"] }
anyhow = "=1.0.104"
lazy_static = "=1.5.1"
log = "=0.4.35"
chrono = "=0.4.45"
derive_more = "=0.99.20"

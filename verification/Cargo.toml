[package]
name = "eth_backend"
version = "0.1.0"
edition = "2021"
publish = false

[dependencies]
ethers-core = "*"
candid = "*"
ic-cdk = "*"
serde = { version = "*", features = ["derive"] }

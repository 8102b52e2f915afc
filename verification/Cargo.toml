[package]
name = "btc_transfer"
version = "0.1.0"
edition = "2021"
publish = false

[dependencies]
bitcoin = "=0.32.102"
candid = "0.10"
ic-cdk = "=0.19.0"
serde = { version = "1", features = ["derive"] }

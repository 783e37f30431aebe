[package]
name = "burn_rewards"
version = "0.1.0"
edition = "2021"
publish = false

[dependencies]
secret-cosmwasm-std = "=1.1.11"
secret-toolkit = { version = "=0.10.3", features = ["permit", "snip20", "snip721", "storage"] }
serde = { version = "1", default-features = false, features = ["derive"] }

[package]
name = "bau_client"
version = "0.1.0"
edition = "2021"
publish = false

[dependencies]
ssp = { version = "=0.5.4", features = ["jsonrpc-std"] }
smol-jsonrpc = "0.2"
serde_json = "1"
clap = { version = "=4.6.7", features = ["derive"] }
rustyline = "=19.0.0"
env_logger = "=0.11.11"

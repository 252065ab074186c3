[package]
name = "forksync"
version = "0.1.0"
edition = "2021"
publish = false

[dependencies]
async-trait = "0.1"
bitcoincore-rpc = "*"
log = "0.4"
minreq = "2"
tokio = { version = "1", features = ["rt", "sync"] }

[package]
name = "launchpad"
version = "0.1.0"
edition = "2021"
publish = false

[dependencies]
cosmwasm-std = "2"
cw20 = "2"
cw-storage-plus = "2"
cosmwasm-schema = "2"

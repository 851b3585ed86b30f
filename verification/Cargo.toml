[package]
name = "mp_starknet"
version = "0.1.0"
edition = "2021"
publish = false

[dependencies]
starknet-core = "=0.4.0"

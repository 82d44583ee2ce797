[package]
name = "reqwest_chain"
version = "0.1.0"
edition = "2021"
publish = false

[dependencies]
reqwest-middleware = "=0.5.2"
async-trait = "=0.1.92"
http = "*"

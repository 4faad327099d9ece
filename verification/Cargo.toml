[package]
name = "snowbridge_smoketest"
version = "0.1.0"
edition = "2021"
publish = false

[dependencies]
hex = "0.4"
futures = "0.3"
subxt = "*"
subxt-signer = "*"

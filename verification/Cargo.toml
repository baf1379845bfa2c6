[package]
name = "usdc_pipeline"
version = "0.1.0"
edition = "2021"
publish = false

[dependencies]
num-bigint = "*"
prost = "*"
prost-types = "*"
substreams = "*"
substreams-ethereum = "*"

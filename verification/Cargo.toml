[package]
name = "sgx_ecc"
version = "0.1.0"
edition = "2021"
publish = false

[dependencies]
ring = "0.17"
libc = "0.2"
sgx_types = "*"
sgx_urts = "*"
bma-benchmark = "*"

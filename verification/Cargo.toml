[package]
name = "matrix_sdk_base"
version = "0.1.0"
edition = "2021"
publish = false

[dependencies]
matrix-sdk-common = "=0.18.0"
matrix-sdk-crypto = "=0.18.0"

[package]
name = "actors_core"
version = "0.1.0"
edition = "2021"
publish = false

[dependencies]
fvm_ipld_encoding = "*"
fvm_sdk = "*"
fvm_shared = "*"

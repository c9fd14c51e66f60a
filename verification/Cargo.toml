[package]
name = "cbor_nan_bstr"
version = "0.1.0"
edition = "2021"
publish = false

[dependencies]
dcbor = "*"
bc-tags = "*"
thiserror = "*"

[package]
name = "brokaw"
version = "0.1.0"
edition = "2021"
publish = false

[dependencies]
async-compression = { version = "=0.4.50", features = ["futures-io", "zlib"] }
async-std = "=1.13.2"
async-tls = "=0.13.0"
flate2 = "=1.1.10"

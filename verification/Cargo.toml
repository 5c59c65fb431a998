[package]
name = "netconnpool"
version = "1.0.3"
edition = "2021"
publish = false

[dependencies]
crossbeam = "0.8"
thiserror = "2"

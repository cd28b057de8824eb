[package]
name = "hkid_ops"
version = "0.1.0"
edition = "2021"
publish = false

[dependencies]
fastrand = "2"
rand = "0.9"

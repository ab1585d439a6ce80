[package]
name = "p2p_lib"
version = "0.1.0"
edition = "2021"
publish = false

[dependencies]
serde_json = "*"
thiserror = "*"

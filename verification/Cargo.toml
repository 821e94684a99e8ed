[package]
name = "bkf-mysql"
version = "0.1.0"
edition = "2021"
publish = false

[dependencies]
clap = { version = "2", default-features = false }
yaml-rust = "0.4"

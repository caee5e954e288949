[package]
name = "typederror"
version = "0.2.2"
edition = "2021"
publish = false

[dependencies]
anyhow = "1"

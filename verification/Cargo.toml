[package]
name = "direct_decl"
version = "0.1.0"
edition = "2021"
publish = false

[dependencies]
bumpalo = { version = "=3.20.3", features = ["collections"] }

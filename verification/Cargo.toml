[package]
name = "vyper"
version = "0.1.0"
edition = "2021"
publish = false

[dependencies]
anchor-lang = "=0.24.2"
anchor-spl = { version = "=0.24.2", features = ["dex"] }

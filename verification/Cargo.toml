[package]
name = "receipt_billing"
version = "0.1.0"
edition = "2021"
publish = false

[dependencies]
anchor-lang = "0.29.0"
anchor-spl = { version = "0.29.0", default-features = false, features = ["token"] }

[package]
name = "amm_q3"
version = "0.1.0"
edition = "2021"
publish = false

[dependencies]
anchor-lang = { version = "=1.0.3", features = ["init-if-needed"] }
anchor-spl = { version = "=1.0.3", default-features = false, features = ["token", "associated_token"] }

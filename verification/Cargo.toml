[package]
name = "private_dex"
version = "0.1.0"
edition = "2021"
publish = false

[dependencies]
anchor-lang = { version = "0.31.1", features = ["init-if-needed"] }
anchor-spl = "0.31.1"
session-keys = "2"
ephemeral-rollups-sdk = { version = "0.2", features = ["anchor"] }

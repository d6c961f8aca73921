[package]
name = "ln_harness"
version = "0.1.0"
edition = "2021"
publish = false

[dependencies]
bitcoin = "*"
lightning = "*"
lightning-invoice = "*"
ldk-node = "*"

[package]
name = "dns_relay"
version = "0.1.0"
edition = "2021"
publish = false

[dependencies]
dns-parser = "0.8"
signal-hook = "0.3"

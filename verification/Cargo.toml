[package]
name = "nrf7002"
version = "0.1.0"
edition = "2021"
publish = false

[dependencies]
sha2 = { version = "0.10", default-features = false }
embedded-hal-async = "1.0"
embassy-sync = "0.7"
embassy-net-driver = "0.2"

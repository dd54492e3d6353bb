[package]
name = "yield_aggregator"
version = "0.1.0"
edition = "2021"
publish = false

[dependencies]
hex = "=0.4.3"
stylus-sdk = "=0.9.0"
openzeppelin-stylus = "=0.2.0"
ruint = "=1.12.3"

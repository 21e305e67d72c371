[package]
name = "memless_engine"
version = "0.1.0"
edition = "2021"
publish = false

[dependencies]
sqlparser = "=0.54.0"

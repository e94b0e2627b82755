[package]
name = "occur"
version = "0.1.0"
edition = "2021"
publish = false

[dependencies]
futures = "*"
futures-locks = "*"

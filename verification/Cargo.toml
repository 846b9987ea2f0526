[package]
name = "env_validator"
version = "0.3.9"
edition = "2021"
publish = false

[dependencies]

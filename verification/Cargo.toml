[package]
name = "yaml"
version = "0.1.0"
edition = "2021"
publish = false

[dependencies]
unsafe-libyaml = "0.2"

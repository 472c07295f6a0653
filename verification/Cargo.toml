[package]
name = "ifs_in_if_conditions"
version = "0.1.0"
edition = "2021"
publish = false

[dependencies]
clippy_utils = "*"

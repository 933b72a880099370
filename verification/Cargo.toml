[package]
name = "notebook_checker"
version = "0.1.0"
edition = "2021"
publish = false

[dependencies]
fake = "2"
rand = "0.8"

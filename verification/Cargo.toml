[package]
name = "mh_hooks"
version = "0.1.0"
edition = "2021"
publish = false

[dependencies]
once_cell = "1"
tracing = "0.1"

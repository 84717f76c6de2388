[package]
name = "test-generation"
version = "0.1.0"
edition = "2021"
publish = false

[dependencies]
hex = "0.4"
getrandom = "0.2"
num_cpus = "1"
crossbeam-channel = "0.5"
rand = "0.8"
tracing = "0.1"

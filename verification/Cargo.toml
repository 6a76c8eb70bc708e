[package]
name = "int_counter"
version = "0.1.0"
edition = "2021"
publish = false

[dependencies]
alloy-primitives = "=0.3.3"
stylus-sdk = "=0.4.3"
mini-alloc = "=1.0.0"
ruint = "=1.10.1"

[package]
name = "tvm_runtime"
version = "0.1.0"
edition = "2021"
publish = false

[dependencies]
anyhow = "1"
tvm-ffi = "*"
tvm-ffi-sys = "*"

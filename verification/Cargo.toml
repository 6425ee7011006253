[package]
name = "rsloop"
version = "0.1.0"
edition = "2021"
publish = false

[dependencies]
memchr = "2"
crossbeam-channel = "0.5"
libc = "0.2"
pyo3 = { version = "*", features = ["extension-module", "abi3-py310"] }
pyo3-async-runtimes = { version = "*", features = ["async-std-runtime"] }
async-std = "1"
futures = "0.3"
compio = "*"
socket2 = "*"
rustls = { version = "0.23", default-features = false, features = ["std", "tls12"] }
profiling = "1"

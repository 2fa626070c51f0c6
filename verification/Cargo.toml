[package]
name = "comms_freq_sync"
version = "0.1.0"
edition = "2021"
publish = false

[dependencies]
num-complex = "0.4"
phastft = "*"
pyo3 = { version = "*", features = ["num-complex"] }

[package]
name = "avislya"
version = "0.1.0"
edition = "2021"
publish = false

[dependencies]
aya-ebpf = "0.1.1"
aya-log-ebpf = "0.1.0"

[dev-dependencies]
network-types = "0.1.0"

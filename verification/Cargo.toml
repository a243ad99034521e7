[package]
name = "async_file"
version = "0.1.0"
edition = "2021"
publish = false

[dependencies]
futures = "0.1"
futures-cpupool = "0.1"
bytes = "0.4"
lazy_static = "1"

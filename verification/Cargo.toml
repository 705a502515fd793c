[package]
name = "pomelo_kernel"
version = "0.1.0"
edition = "2021"
publish = false

[dependencies]
lazy_static = "=1.5.1"
spinning_top = "=0.3.0"

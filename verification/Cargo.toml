[package]
name = "plot_rs"
version = "0.1.0"
edition = "2021"
publish = false

[dependencies]
nannou = "=0.19.0"

[dev-dependencies]
nannou_core = "=0.19.0"

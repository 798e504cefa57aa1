[package]
name = "gpu_dispatch"
version = "0.1.0"
edition = "2021"
publish = false

[dependencies]
vulkano = "0.20"
vulkano-shaders = "0.20"

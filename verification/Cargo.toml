[package]
name = "gpui_gpu"
version = "0.1.0"
edition = "2021"
publish = false

[dependencies]
wgpu = { version = "=30.0.1", features = ["noop"] }
anyhow = "=1.0.104"
pollster = "=1.0.1"

[package]
name = "render_pipeline"
version = "0.1.0"
edition = "2021"
publish = false

[dependencies]
anyhow = "1"
raw-window-handle = "0.4"
wgpu = "0.12"

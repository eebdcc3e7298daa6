[package]
name = "scatter_plot"
version = "0.1.0"
edition = "2021"
publish = false

[dependencies]
euclid = "=0.20.14"
iced_native = "=0.2.2"
iced_wgpu = "=0.2.3"

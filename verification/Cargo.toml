[package]
name = "sim_engine"
version = "0.1.0"
edition = "2021"
publish = false

[dependencies]
cgmath = "0.18"
nalgebra = "0.33"
rapier3d = "0.22"
vulkano = "0.34"
vulkano-shaders = "0.34"
winit = "0.28"

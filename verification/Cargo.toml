[package]
name = "untitled_physics_simulator"
version = "0.1.0"
edition = "2021"
publish = false

[dependencies]
anyhow = "=1.0.104"
bevy = { version = "=0.11.3", default-features = false }
bevy_rapier3d = { version = "=0.22.0", default-features = false, features = ["dim3", "headless"] }
flume = "=0.11.1"
glam = "=0.24.2"
polars = { version = "=0.32.1", default-features = false }
pyo3 = { version = "=0.19.2", features = ["abi3-py38"] }
tobj = "=4.0.5"

[package]
name = "ifsrs"
version = "0.1.0"
edition = "2021"
publish = false

[dependencies]
petgraph = "=0.6.5"
slotmap = "=1.1.1"
nalgebra = "=0.32.6"
bytemuck = { version = "=1.25.2", features = ["derive"] }
serde = { version = "=1.0.229", features = ["derive"] }
toml = "=0.8.23"
rand = "=0.8.8"
itertools = "=0.12.1"
lazy_static = "=1.5.1"
futures = "=0.3.34"
log = "=0.4.34"
env_logger = "=0.10.2"
egui = "=0.27.2"
egui-wgpu = { version = "=0.27.2", default-features = false }
wgpu = { version = "0.19", default-features = false, features = ["wgsl"] }

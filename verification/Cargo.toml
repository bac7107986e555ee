[package]
name = "resource_streaming"
version = "0.1.0"
edition = "2021"
publish = false

[dependencies]
anyhow = "=1.0.104"
bytesize = "=1.3.3"
crossbeam-channel = "=0.5.17"
futures = "=0.3.34"
gilrs = "0.10"
glam = "=0.34.1"
imgui = "0.11"
lazy_static = "=1.5.1"
log = "=0.4.34"
num_cpus = "=1.17.0"
parking_lot = "=0.12.5"
relative-path = "=1.9.3"
rspirv = "=0.13.0"
scopeguard = "=1.2.0"
serde = { version = "=1.0.229", features = ["derive"] }
winit = "0.28"

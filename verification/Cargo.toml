[package]
name = "async_bridge"
version = "0.1.0"
edition = "2021"
publish = false

[dependencies]
num_cpus = "1"
once_cell = "1"
diesel = { version = "2", features = ["r2d2"] }
r2d2 = "0.8"

[package]
name = "wcomp"
version = "0.1.0"
edition = "2021"
publish = false

[dependencies]
bytemuck = { version = "=1.25.2", features = ["extern_crate_alloc"] }
calloop = "=0.9.3"
env_logger = "=0.9.3"
log = "=0.4.34"

[package]
name = "oxdraw_core"
version = "0.1.0"
edition = "2021"
publish = false

[dependencies]
anyhow = "1"
env_logger = "0.10"
log = "0.4"
smol_str = "0.2"
thiserror = "1"
winit = { version = "0.29", default-features = false, features = ["x11", "rwh_05"] }

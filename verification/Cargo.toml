[package]
name = "wolf_engine"
version = "0.1.0"
edition = "2021"
publish = false

[dependencies]
anyhow = "*"
log = "*"
puffin_http = "*"
serde = { version = "*", features = ["derive"] }
simple_logger = "*"
winit = "*"

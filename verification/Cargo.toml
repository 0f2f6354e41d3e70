[package]
name = "rrte_engine"
version = "0.1.0"
edition = "2021"
publish = false

[dependencies]
anyhow = "=1.0.104"
bytemuck = { version = "=1.25.2", features = ["derive"] }
env_logger = { version = "0.10", default-features = false }
glam = { version = "=0.25.0", features = ["serde"] }
image = { version = "0.24", default-features = false, features = ["png"] }
log = "=0.4.34"
rand = "=0.8.8"
rayon = "=1.12.0"
serde = { version = "=1.0.229", features = ["derive"] }
serde_json = "=1.0.154"
tokio = { version = "1", default-features = false, features = ["rt", "macros"] }
toml = "=0.8.23"
wgpu = { version = "=0.19.4", default-features = false, features = ["wgsl"] }

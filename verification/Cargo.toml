[package]
name = "kerrbhy"
version = "0.1.0"
edition = "2021"
publish = false

[dependencies]
image = { version = "=0.25.10", default-features = false, features = ["png", "exr"] }
bytemuck = "=1.25.2"
glam = { version = "=0.25.0", features = ["serde"] }
fastrand = "=2.5.0"
rayon = "=1.12.0"
serde = { version = "=1.0.229", features = ["derive"] }
toml = "=1.1.8"
thiserror = "=2.0.21"
clap = { version = "=4.6.7", features = ["derive"] }
anyhow = "=1.0.104"

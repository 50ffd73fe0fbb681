[package]
name = "shapes_demo"
version = "0.1.0"
edition = "2021"
publish = false

[dependencies]
dust_dds = "=0.8.2"
periodic = "=0.1.1"
serde = { version = "=1.0.229", features = ["derive"] }

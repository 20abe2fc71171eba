[package]
name = "dcs_projections"
version = "0.1.0"
edition = "2021"
publish = false

[dependencies]
proj = "*"
serde = { version = "*", features = ["derive"] }
anyhow = "*"

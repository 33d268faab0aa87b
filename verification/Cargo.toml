[package]
name = "optima_3d_pose"
version = "0.1.0"
edition = "2021"
publish = false

[dependencies]
serde = { version = "*", features = ["derive"] }
serde_json = "*"
serde_with = "*"
nalgebra = "*"
ad_trait = "*"

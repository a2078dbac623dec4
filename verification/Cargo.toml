[package]
name = "lambda_engine"
version = "0.1.0"
edition = "2021"
publish = false

[dependencies]
ash = "0.37"
ash-window = "0.11"
nalgebra = "0.32"
winit = "0.27"

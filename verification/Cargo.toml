[package]
name = "batch_upscale"
version = "0.1.0"
edition = "2021"
publish = false

[dependencies]
anyhow = "1"
clap = { version = "4", features = ["derive"] }
image = "0.24"
rayon = "1"
walkdir = "2"

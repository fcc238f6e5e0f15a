[package]
name = "livesplit-renderer-glow"
version = "0.1.0"
edition = "2021"
publish = false

[dependencies]
bytemuck = { version = "1", features = ["derive"] }
glow = "*"
image = "0.25"
livesplit-core = { version = "0.13", features = ["software-rendering"] }
lyon = "1"

[package]
name = "gfx_sandbox"
version = "0.1.0"
edition = "2021"
publish = false

[dependencies]
image = { version = "0.24", default-features = false, features = ["png", "pnm"] }
tokio = { version = "1", default-features = false, features = ["rt-multi-thread", "macros"] }
bytemuck = { version = "1", features = ["derive"] }

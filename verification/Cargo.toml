[package]
name = "shader_layout"
version = "0.1.0"
edition = "2021"
publish = false

[dependencies]
vulkano = { version = "*", default-features = false }
bytemuck = { version = "*", features = ["extern_crate_alloc"] }
syn = "*"

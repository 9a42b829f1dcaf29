[package]
name = "depth_registration"
version = "0.1.0"
edition = "2021"
publish = false

[dependencies]
az = "1"
bytemuck = { version = "1", features = ["extern_crate_alloc"] }
glam = { version = "*", features = ["bytemuck"] }
image = { version = "*", default-features = false, features = ["png"] }
coolor = "*"
simplelog = "*"
log = "0.4"
once_cell = "1"

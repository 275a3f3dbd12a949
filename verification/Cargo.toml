[package]
name = "strolle"
version = "0.1.0"
edition = "2021"
publish = false

[dependencies]
glam = "0.24"
log = "0.4"
rand = "0.8"
wgpu = "0.17"

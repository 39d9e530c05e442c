[package]
name = "mujoco_app"
version = "0.1.0"
edition = "2021"
publish = false

[dependencies]
glium = "0.36"
glutin-winit = "0.5"
mujoco-rs-sys = "*"

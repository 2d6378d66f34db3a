[package]
name = "freeflight"
version = "0.1.0"
edition = "2021"
publish = false

[dependencies]
cgmath = "0.18"
glium = "0.30"
log = "0.4"
obj = "0.10"
pretty_env_logger = "0.4"
stl_io = "0.6"

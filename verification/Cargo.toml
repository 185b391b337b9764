[package]
name = "ray_tracer"
version = "0.1.0"
edition = "2021"
publish = false

[dependencies]
cgmath = "*"
colored = "*"
crossterm = "*"
derive_builder = "*"
rand = "*"
rayon = "*"

[package]
name = "tracer"
version = "0.1.0"
edition = "2021"
publish = false

[dependencies]
glam = "0.8"
rand = "0.6"
rayon = "1"

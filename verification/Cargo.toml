[package]
name = "nbody"
version = "0.1.0"
edition = "2021"

[dependencies]
rayon = "=1.12.0"
sfml = "=0.13.2"

[package]
name = "flipdot_graphics"
version = "0.1.0"
edition = "2021"
publish = false

[dependencies]
flipdot = "=0.8.0"
flipdot-testing = "=0.8.0"
serial = "=0.4.0"
embedded-graphics-core = "=0.4.1"

[dev-dependencies]
embedded-graphics = "=0.8.2"
flipdot-core = "=0.8.0"

[package]
name = "wolfwig"
version = "0.1.0"
edition = "2021"
publish = false

[dependencies]
env_logger = "*"
log = "0.4"
sdl2 = "0.32"
structopt = "0.3"

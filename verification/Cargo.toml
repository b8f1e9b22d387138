[package]
name = "rgy"
version = "0.1.0"
edition = "2021"
publish = false

[dependencies]
bitfield-struct = "*"
hashbrown = "*"
lazy_static = "*"
log = "*"
spin = "*"
structopt = "*"
env_logger = "*"

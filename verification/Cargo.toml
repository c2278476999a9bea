[package]
name = "generals_shim"
version = "0.1.0"
edition = "2021"
publish = false

[dependencies]
autocxx = "*"
cxx = "*"
env_logger = "*"
glob = "*"
log = "*"
parking_lot = "*"

[package]
name = "registration"
version = "0.1.0"
edition = "2021"
publish = false

[dependencies]
crc32fast = "1.4"
ctor = "0.2"
lazy_static = "1.4"

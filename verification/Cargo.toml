[package]
name = "oath2"
version = "0.1.0"
edition = "2021"
publish = false

[dependencies]
byteorder = "1"
log = "0.4"
simple_logger = "*"

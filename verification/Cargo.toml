[package]
name = "arrow_entity"
version = "0.1.0"
edition = "2021"
publish = false

[dependencies]
glam = "*"
log = "0.4"
rand = "0.9"
simdnbt = "*"
uuid = "1"

[package]
name = "riji"
version = "0.1.0"
edition = "2021"
publish = false

[dependencies]
ansi_term = "0.12"
ctor = "*"
output_vt100 = "*"
rhai = "1"

[package]
name = "rvm"
version = "0.1.0"
edition = "2021"
publish = false

[dependencies]
lazy_static = "=1.5.1"
log = "=0.4.34"
spin = "=0.9.9"
x86 = "=0.52.0"

[package]
name = "code_signing"
version = "0.1.0"
edition = "2021"
publish = false

[dependencies]
core-foundation = "0.9"
libc = "0.2"
security-framework-sys = "2"

[package]
name = "tls_hello"
version = "0.1.0"
edition = "2021"
publish = false

[dependencies]
argh = "=0.1.19"
async-std = "=1.13.2"
async-tls = "=0.12.0"
rustls = "=0.20.9"
rustls-pemfile = "=1.0.4"

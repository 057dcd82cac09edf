[package]
name = "retry_loop"
version = "0.1.0"
edition = "2021"
publish = false

[dependencies]
failure = "=0.1.8"
quicli = "=0.3.1"
structopt = "=0.2.18"

[package]
name = "poll_channel"
version = "0.1.0"
edition = "2021"
publish = false

[dependencies]
mio = "=0.6.23"
lazycell = "=1.3.0"

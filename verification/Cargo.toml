[package]
name = "perfprox"
version = "0.1.0"
edition = "2021"
publish = false

[dependencies]
mio = { version = "1", features = ["os-poll", "net"] }
getopts = "0.2"
log = "0.4"

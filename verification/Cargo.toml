[package]
name = "bitbloom"
version = "0.1.0"
edition = "2021"
publish = false

[dependencies]
libm = "0.2"
rand_core = "0.9"
siphasher = "1"

[dev-dependencies]
rand_pcg = "0.9"

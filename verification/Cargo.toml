[package]
name = "rand_bind"
version = "0.1.0"
edition = "2021"
publish = false

[dependencies]
rand = "0.8.5"

[dev-dependencies]
rand_xorshift = "0.3.0"

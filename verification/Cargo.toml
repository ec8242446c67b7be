[package]
name = "idiots_delight"
version = "0.1.0"
edition = "2021"
publish = false

[dependencies]
rand = "0.8"
num_cpus = "1"
num-format = "0.4"

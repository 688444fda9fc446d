[package]
name = "genetic_algorithms"
version = "1.0.0"
edition = "2021"
publish = false

[dependencies]
rand = "0.8"

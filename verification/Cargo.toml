[package]
name = "fj_core"
version = "0.1.0"
edition = "2021"
publish = false

[dependencies]
notify = "*"
nalgebra = "*"
decorum = "0.3"
euclid = "*"

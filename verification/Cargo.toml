[package]
name = "moebius"
version = "0.1.0"
edition = "2021"
publish = false

[dependencies]
statrs = "=0.16.1"
nalgebra = "=0.29.0"
ndarray = "=0.15.6"

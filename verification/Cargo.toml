[package]
name = "theon"
version = "0.1.0"
edition = "2021"
publish = false

[dependencies]
decorum = "*"
ndarray = "*"
ndarray-linalg = "*"
num = "*"

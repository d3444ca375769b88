[package]
name = "car_sharing"
version = "0.1.0"
edition = "2021"
publish = false

[dependencies]
indexmap = "*"

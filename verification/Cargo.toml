[package]
name = "tuple_split"
version = "0.1.0"
edition = "2021"
publish = false

[dev-dependencies]
tupleops = "*"

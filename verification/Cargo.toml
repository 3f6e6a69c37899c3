[package]
name = "ql-driver"
version = "0.1.0"
edition = "2021"
publish = false

[dependencies]
bitvec = "1"
thiserror = "*"
image = { version = "*", default-features = false, features = ["png"] }

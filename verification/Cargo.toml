[package]
name = "vending"
version = "0.1.0"
edition = "2021"
publish = false

[dependencies]
concurrent-queue = "*"
onetime = "*"
thiserror = "*"

[dev-dependencies]
smol = "*"

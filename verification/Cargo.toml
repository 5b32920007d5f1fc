[package]
name = "hpptest"
version = "0.1.0"
edition = "2021"
publish = false

[dependencies]
atty = "=0.2.14"
colored-print = "=0.1.3"

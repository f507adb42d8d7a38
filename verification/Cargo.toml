[package]
name = "geqslib"
version = "0.1.0"
edition = "2021"
publish = false

[dependencies]
regex = "*"
rustc_apfloat = "*"
gmatlib = "*"

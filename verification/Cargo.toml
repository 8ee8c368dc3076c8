[package]
name = "flint_codegen"
version = "0.1.0"
edition = "2021"
publish = false

[dependencies]
hex = "0.4"
sha3 = "0.10"
nom = "5"
nom_locate = "2"
itertools = "0.9"

[package]
name = "assignability"
version = "0.1.0"
edition = "2021"
publish = false

[dependencies]
swc_atoms = "*"
swc_common = "*"
swc_ecma_ast = "*"

[package]
name = "rdkit"
version = "0.1.0"
edition = "2021"
publish = false

[dependencies]
cxx = "*"
rdkit-sys = "*"
thiserror = "*"

[package]
name = "pest_playground"
version = "0.1.0"
edition = "2021"
publish = false

[dependencies]
pest = "*"
pest_meta = "*"
pest_vm = "*"

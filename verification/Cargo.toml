[package]
name = "regmach_bytecode"
version = "0.1.0"
edition = "2021"
publish = false

[dependencies]
wasmi_core = "*"

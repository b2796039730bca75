[package]
name = "wrought"
version = "0.1.0"
edition = "2021"
publish = false

[dependencies]
cranelift-entity = "0.100"
miette = "5"
thiserror = "1"

[package]
name = "dynarmic_sys"
version = "0.2.1"
edition = "2021"
publish = false

[dependencies]
anyhow = "1"
log = "0.4"

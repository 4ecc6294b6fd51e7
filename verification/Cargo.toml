[package]
name = "clmm"
version = "0.1.0"
edition = "2021"
publish = false

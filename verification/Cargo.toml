[package]
name = "reclaim"
version = "0.1.0"
edition = "2021"
publish = false

[dependencies]
typenum = "=1.20.1"
cfg-if = "=1.0.5"

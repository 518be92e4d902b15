[package]
name = "intrico"
version = "0.1.0"
edition = "2021"

[dependencies]
rand = "=0.10.3"
rusticle = "=0.5.0"

[package]
name = "aura_core"
version = "0.1.0"
edition = "2021"
publish = false

[dependencies]
vte = "0.13"
jni = "0.21"
lazy_static = "1.4"

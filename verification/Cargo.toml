[package]
name = "mustang"
version = "0.1.0"
edition = "2021"
publish = false

[dependencies]
anyhow = "=1.0.104"
kurbo = "=0.13.1"
peniko = "=0.6.1"
anyrender = "=0.14.0"
anyrender_vello = "=0.15.0"
vello = "=0.11.0"
boa_engine = "0.21"
tracing = "0.1"

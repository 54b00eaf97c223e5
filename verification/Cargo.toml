[package]
name = "provider_ty"
version = "0.1.0"
edition = "2021"
publish = false

[dependencies]
allocative = "=0.3.4"
anyhow = "=1.0.104"
dupe = "=0.9.1"
starlark = "=0.13.0"
tempfile = "=3.27.0"

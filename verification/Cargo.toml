[package]
name = "koto_clib"
version = "0.1.0"
edition = "2021"
publish = false

[dependencies]
anyhow = "1"
koto = "*"
libloading = "*"
slab = "0.4"

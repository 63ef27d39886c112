[package]
name = "blur"
version = "0.1.0"
edition = "2021"
publish = false

[dependencies]
rustc_apfloat = "=0.2.3"
rustyline = "=19.0.0"
dirs = "=7.0.0"

[package]
name = "doom_snapshot"
version = "0.1.0"
edition = "2021"
publish = false

[dependencies]
png = "=0.18.1"
anyhow = "=1.0.104"
wasmtime = { version = "=46.0.3", default-features = false, features = ["cranelift", "runtime"] }

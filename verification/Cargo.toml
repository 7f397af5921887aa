[package]
name = "aw_world"
version = "0.1.0"
edition = "2021"
publish = false

[dependencies]
ecs_rust = "*"
wasm-bindgen = "*"
js-sys = "*"

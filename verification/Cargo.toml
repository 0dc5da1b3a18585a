[package]
name = "wgputoy"
version = "0.1.0"
edition = "2021"
publish = false

[dependencies]
bitvec = "=1.1.1"
bytemuck = { version = "1", features = ["derive"] }
image = "=0.24.9"
js-sys = "0.3"
lazy-regex = "=2.5.0"
log = "0.4"
naga = { version = "0.9", features = ["wgsl-in"] }
num = "=0.4.3"
wasm-bindgen = "0.2"
wasm-bindgen-futures = "0.4"
wee_alloc = "0.4"
wgpu = "0.13"
winit = "0.26"

[package]
name = "fast_morse_smale_2d"
version = "0.1.0"
edition = "2021"
publish = false

[dependencies]
bytemuck = { version = "1", features = ["extern_crate_alloc"] }
console_error_panic_hook = "0.1"
console_log = "1"
env_logger = "0.10"
flume = "0.11"
log = "0.4"
pollster = "0.3"
wasm-bindgen-futures = "0.4"
wgpu = "0.19"

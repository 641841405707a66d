[package]
name = "angle_gles_generator"
version = "0.1.0"
edition = "2021"
publish = false

[dependencies]
bindgen = "0.69"
gl_generator = "0.14"
pico-args = "0.5"
ron = "0.8"
serde = { version = "1", features = ["derive"] }

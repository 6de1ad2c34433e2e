[package]
name = "shader_reflect"
version = "0.1.0"
edition = "2021"
publish = false

[dependencies]
spirq = "=1.3.0"
serde = { version = "=1.0.229", features = ["derive"] }

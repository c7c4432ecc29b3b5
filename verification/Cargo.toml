[package]
name = "onnxruntime"
version = "0.1.0"
edition = "2021"
publish = false

[dependencies]
ndarray = "=0.15.6"
onnxruntime-sys = { version = "=0.0.14", features = ["disable-sys-build-script"] }
tracing = "=0.1.44"

[package]
name = "drop_gui"
version = "0.1.0"
edition = "2021"
publish = false

[dependencies]
iced = { version = "=0.4.2", features = ["pure", "canvas"] }
iced_style = "=0.4.0"
native-dialog = "=0.6.4"
pyo3 = "=0.16.6"
tract-onnx = "=0.23.8"

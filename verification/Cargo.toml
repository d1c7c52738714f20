[package]
name = "my_model_inference_backend"
version = "0.1.0"
edition = "2021"
publish = false

[dependencies]
tract-onnx = "=0.23.8"
prost = "=0.14.4"
ic-cdk = "=0.20.3"
candid = "=0.10.37"

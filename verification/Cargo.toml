[package]
name = "onnx_circuit"
version = "0.1.0"
edition = "2021"
publish = false

[dependencies]
anyhow = "=1.0.104"
clap = { version = "=4.6.7", features = ["derive"] }
halo2_proofs = "=0.2.0"
kstring = "=2.0.0"
log = "=0.4.34"
tract-onnx = "=0.18.5"

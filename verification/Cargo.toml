[package]
name = "neural_pulse"
version = "0.1.0"
edition = "2021"
publish = false

[dependencies]
anyhow = "1"
crossbeam-channel = "0.5"
llama_cpp_rs = "0.3"
rusqlite = "0.40"

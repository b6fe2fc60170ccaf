[package]
name = "gguf_pipeline"
version = "0.1.0"
edition = "2021"
publish = false

[dependencies]
anyhow = "=1.0.104"
candle-core = "=0.4.1"
# Not used by name: held here so that candle-core 0.4.1 builds. From 2.5 on,
# half takes rand 0.9, and candle-core 0.4.1 is written against rand 0.8.
half = "=2.4.1"
hf-hub = "=0.3.2"
thiserror = "=1.0.69"
tokenizers = { version = "=0.15.2", default-features = false, features = ["unstable_wasm"] }
tracing = "=0.1.44"

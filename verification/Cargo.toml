[package]
name = "hf_tokenizer"
version = "0.1.0"
edition = "2021"
publish = false

[dependencies]
tokenizers = "*"
brotli = "*"
serde_json = "*"
libc = "*"
lazy_static = "*"

[package]
name = "fastfield_writer"
version = "0.1.0"
edition = "2021"
publish = false

[dependencies]
tantivy-bitpacker = "=0.2.0"
tantivy-common = "=0.3.0"
fastfield_codecs = "*"
fnv = "=1.0.7"

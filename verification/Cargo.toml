[package]
name = "symbol_analyzer"
version = "0.1.0"
edition = "2021"
publish = false

[dependencies]
lazy_static = "=1.5.1"
streaming-iterator = "=0.1.9"
tree-sitter = "=0.27.1"
tree-sitter-cpp = "=0.23.4"

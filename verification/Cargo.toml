[package]
name = "mini_rust_compiler_components"
version = "0.1.0"
edition = "2021"
publish = false

[dependencies]
unicode-ident = "1"
fallible-iterator = "0.3"
debug_tree = "*"

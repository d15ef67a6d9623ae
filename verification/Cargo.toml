[package]
name = "comment_checker"
version = "0.1.0"
edition = "2021"
publish = false

[dependencies]
tree-sitter = "*"
tree-sitter-python = "*"
clap = { version = "*", features = ["derive"] }

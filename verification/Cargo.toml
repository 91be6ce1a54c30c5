[package]
name = "whitespace_lsp"
version = "0.1.0"
edition = "2021"
publish = false

[dependencies]
lsp-server = "*"
lsp-types = "*"
serde = "*"
serde_json = "*"
tree-sitter = "*"
whitespace = "*"

[package]
name = "ast_engine"
version = "0.1.0"
edition = "2021"
publish = false

[dependencies]
tree-sitter = "*"
tree-sitter-json = "*"
tree-sitter-rust = "*"
tree-sitter-javascript = "*"
tree-sitter-typescript = "*"
tree-sitter-go = "*"
tree-sitter-ocaml = "*"
wasm-bindgen = "*"
console_error_panic_hook = "*"

[dev-dependencies]
serde_json = "*"

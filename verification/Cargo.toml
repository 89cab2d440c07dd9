[package]
name = "lume_lsp"
version = "0.1.0"
edition = "2021"
publish = false

[dependencies]
clap = { version = "4", features = ["derive"] }
crossbeam = "0.8"
error_snippet = "*"
indexmap = "2"
log = "0.4"
lsp-server = "0.7"
lsp-types = "0.97"
serde = { version = "1", features = ["derive"] }
serde_json = "1"
simple-logging = "2"

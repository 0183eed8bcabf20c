[package]
name = "json_lsp_adapter"
version = "0.1.0"
edition = "2021"
publish = false

[dependencies]
anyhow = "1"
async-trait = "0.1"
futures = "0.3"
serde_json = "1"
smol = "*"

[package]
name = "ucm_bootstrap"
version = "0.1.0"
edition = "2021"
publish = false

[dependencies]
anyhow = "=1.0.104"
lapce-plugin = "=0.1.2"
lsp-types = "0.95"
serde_json = "=1.0.154"
url = "2"

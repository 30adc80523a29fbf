[package]
name = "fresh_editor"
version = "0.1.0"
edition = "2021"
publish = false

[dependencies]
serde_json = "1"
serde = { version = "1", features = ["derive"] }
lsp-types = "0.97"
libc = "0.2"
crossterm = "0.29"
ratatui = "0.29"
tokio = { version = "1", features = ["rt-multi-thread", "process", "io-util", "sync", "time", "macros"] }
tracing = "0.1"
anyhow = "1"

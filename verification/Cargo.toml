[package]
name = "sshy"
version = "0.1.0"
edition = "2021"
publish = false

[dependencies]
copypasta = "=0.10.2"
crossterm = "=0.28.1"
dirs = "=7.0.0"
portable-pty = "=0.9.0"
ratatui = "=0.29.0"
textwrap = "=0.16.4"
tokio = { version = "=1.53.2", features = ["rt-multi-thread", "macros"] }
tui-textarea = "=0.7.0"

[package]
name = "tag"
version = "0.1.0"
edition = "2021"
publish = false

[dependencies]
clap = { version = "=4.6.7", features = ["derive"] }
colored = "=2.2.0"
crossterm = "=0.27.0"
ratatui = "=0.27.0"
textwrap = "=0.16.4"
tui-textarea = "=0.5.3"
walkdir = "=2.5.0"

[package]
name = "gix_tui"
version = "0.1.0"
edition = "2021"
publish = false

[dependencies]
anyhow = "*"
crossbeam-channel = "*"
crossterm = "*"
ratatui = "*"

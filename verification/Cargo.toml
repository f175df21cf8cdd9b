[package]
name = "entry_colors"
version = "0.1.0"
edition = "2021"
publish = false

[dependencies]
lscolors = "=0.7.1"
ansi_term = "=0.12.1"

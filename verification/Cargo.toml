[package]
name = "rust_erase"
version = "0.1.0"
edition = "2021"
publish = false

[dependencies]
regex = "=1.13.1"
indicatif = "=0.17.11"
rayon = "=1.12.0"
crossterm = "=0.27.0"

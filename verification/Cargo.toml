[package]
name = "nix-snake"
version = "0.1.0"
edition = "2021"
publish = false

[dependencies]
rand = "0.10"
crossterm = "0.29"

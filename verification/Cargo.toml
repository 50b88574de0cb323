[package]
name = "cargo_eval"
version = "0.1.0"
edition = "2021"
publish = false

[dependencies]
atty = "0.2"
clap = "2"
dirs = "*"

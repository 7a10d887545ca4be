[package]
name = "patchall"
version = "0.1.0"
edition = "2021"
publish = false

[dependencies]
clap = "2.34"
rand = "0.8"
unwrap = "1.2"
walkdir = "2"

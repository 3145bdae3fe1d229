[package]
name = "vim9_gen"
version = "0.1.0"
edition = "2021"
publish = false

[dependencies]
stylua = "*"
anyhow = "1"
clap = { version = "4", features = ["derive"] }

[package]
name = "clang_format_gen"
version = "0.1.0"
edition = "2021"
publish = false

[dependencies]
clap = "*"
thiserror = "*"

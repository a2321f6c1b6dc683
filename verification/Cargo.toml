[package]
name = "hlbc_decompiler"
version = "0.1.0"
edition = "2021"
publish = false

[dependencies]
fmtools = "0.1"

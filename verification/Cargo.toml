[package]
name = "yotasm"
version = "0.1.0"
edition = "2021"
publish = false

[dependencies]
codespan-reporting = "0.11.1"
structopt = "0.3"
unicode-segmentation = "1"

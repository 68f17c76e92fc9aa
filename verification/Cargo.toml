[package]
name = "xiso_converter"
version = "0.1.0"
edition = "2021"
publish = false

[dependencies]
xdvdfs = { version = "=0.8.3", features = ["sync"] }

[package]
name = "h264-syntax-dump"
version = "0.1.0"
edition = "2021"
publish = false

[dependencies]
h264-reader = "*"
mpeg-syntax-dump = "*"

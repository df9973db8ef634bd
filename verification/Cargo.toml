[package]
name = "audiobook2srs"
version = "0.1.0"
edition = "2021"
publish = false

[dependencies]
srtlib = "*"
rayon = "*"

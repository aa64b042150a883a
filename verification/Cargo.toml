[package]
name = "hfe"
version = "0.1.0"
edition = "2021"

[dependencies]
binread = "2"
brailledump = "*"

[package]
name = "vesuvius"
version = "0.1.0"
edition = "2021"
publish = false

[dependencies]
num-bigint = "*"
peg = "*"
clap = { version = "*", features = ["derive"] }
line-col = "*"

[package]
name = "exrmips"
version = "0.1.0"
edition = "2021"
publish = false

[dependencies]
clap = { version = "4", features = ["cargo"] }
log = "0.4"
simplelog = "*"
termion = "*"

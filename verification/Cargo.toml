[package]
name = "jl-pretty"
version = "0.1.0"
edition = "2021"
publish = false

[dependencies]
clap = { version = "4", features = ["derive"] }
parse-size = "1"
regex = "1"
sonic-rs = "*"
thiserror = "2"

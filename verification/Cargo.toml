[package]
name = "portfwd"
version = "0.1.0"
edition = "2021"
publish = false

[dependencies]
clap = { version = "4", features = ["derive"] }
easy-parallel = "3"
num_cpus = "1"
smol = "*"
tracing = "0.1"
tracing-subscriber = "0.3"

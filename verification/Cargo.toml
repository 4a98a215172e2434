[package]
name = "testsuite_adaptor"
version = "0.1.0"
edition = "2021"
publish = false

[dependencies]
anyhow = "*"
clap = { version = "*", features = ["derive"] }
colored = "*"
rayon = "*"
thiserror = "*"
wait-timeout = "*"
walkdir = "*"
which = "*"

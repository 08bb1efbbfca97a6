[package]
name = "cairo_core"
version = "0.1.0"
edition = "2021"
publish = false

[dependencies]
anyhow = "*"
cairo-felt = "*"
cairo-vm = "*"
clap = { version = "*", features = ["derive"] }
convert_case = "*"
itertools = "*"
log = "*"
num-bigint = "*"
num-traits = "*"
thiserror = "*"

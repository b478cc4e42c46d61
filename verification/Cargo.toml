[package]
name = "termimg"
version = "0.1.0"
edition = "2021"
publish = false

[dependencies]
clap = { version = "4", features = ["derive"] }
image = "0.25"
terminal_size = "0.4"
ureq = "3"

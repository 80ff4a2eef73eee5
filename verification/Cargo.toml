[package]
name = "llvmenv"
version = "0.1.0"
edition = "2021"
publish = false

[dependencies]
url = "2"
reqwest = { version = "*", default-features = false, features = ["blocking"] }
tempdir = "0.3"
dirs = "*"

[package]
name = "cargo-xbuild-redirector"
version = "0.1.0"
edition = "2021"
publish = false

[dependencies]
clap = "2"
ex = "0.1"
platforms = "3.1"
regex = "1"

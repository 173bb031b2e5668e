[package]
name = "rustiegb"
version = "0.1.0"
edition = "2021"
publish = false

[dependencies]
clap = "4"
prettytable-rs = "0.10"

[package]
name = "bbqueue"
version = "0.1.0"
edition = "2021"

[dependencies]
generic-array = "*"

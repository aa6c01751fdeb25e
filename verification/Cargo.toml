[package]
name = "placebo_shell"
version = "0.1.0"
edition = "2021"
publish = false

[dependencies]
btoi = "*"

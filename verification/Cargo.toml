[package]
name = "mayerror"
version = "0.1.0"
edition = "2021"
publish = false

[dependencies]
backtrace = "*"
owo-colors = "*"
once_cell = "*"
tracing-error = "*"
color-spantrace = "*"

[package]
name = "progress_bar"
version = "0.1.0"
edition = "2021"
publish = false

[dependencies]
console-utils = "=1.8.3"
libc = "*"

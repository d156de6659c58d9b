[package]
name = "it9910hd"
version = "0.1.0"
edition = "2021"
publish = false

[dependencies]
clap = "=2.34.0"
fuse = "=0.3.1"
libc = "=0.2.191"
thread-priority = "=0.1.1"
time = "=0.1.45"

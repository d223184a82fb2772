[package]
name = "hot_reload"
version = "0.1.0"
edition = "2021"
publish = false

[dependencies]
dlopen2 = "*"

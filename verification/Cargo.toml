[package]
name = "style"
version = "0.1.0"
edition = "2021"
publish = false

[dependencies]
app_units = "0.7"
euclid = "0.22"

[package]
name = "io_truncate"
version = "0.1.0"
edition = "2021"
publish = false

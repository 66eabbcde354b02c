[package]
name = "spark_regexp"
version = "0.1.0"
edition = "2021"
publish = false

[dependencies]
arrow = { version = "*", default-features = false }
regex = "1"

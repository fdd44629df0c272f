[package]
name = "snafu"
version = "0.1.0"
edition = "2021"
publish = false

[dependencies]
backtrace = "0.3"

[package]
name = "globe"
version = "0.3.0"
edition = "2021"
publish = false

[dependencies]
clap = "3"
crossterm = "0.18"

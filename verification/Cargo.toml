[package]
name = "termod"
version = "0.1.0"
edition = "2021"
publish = false

[dependencies]
chrono = "0.4"
crossterm = "0.28"
rand = "0.8"

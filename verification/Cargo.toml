[package]
name = "experiment"
version = "0.1.0"
edition = "2021"
publish = false

[dependencies]
chrono = "0.4"
clap = "2"
data-encoding = "2"
failure = "0.1"
failure_derive = "0.1"
rand = "0.8"
tempfile = "3"

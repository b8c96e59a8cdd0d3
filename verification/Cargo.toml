[package]
name = "mpm"
version = "0.1.0"
edition = "2021"
publish = false

[dependencies]
rust-crypto = "0.2"
flate2 = "1"
tar = "0.4"
toml = "*"
time = "0.1"
walkdir = "2"
git2 = "*"
hyper = "0.10"
ansi_term = "*"
log = "*"
clap = "*"

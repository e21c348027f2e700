[package]
name = "red"
version = "0.1.0"
edition = "2021"
publish = false

[dependencies]
env_logger = "*"
log = "*"
regex = "=1.13.1"
rustyline = "=18.0.1"
structopt = "=0.3.26"

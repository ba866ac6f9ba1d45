[package]
name = "fly_dns"
version = "0.1.0"
edition = "2021"
publish = false

[dependencies]
config = "0.9"
clap = "2"
env_logger = "*"
log = "0.4"

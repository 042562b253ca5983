[package]
name = "crikey_irc"
version = "0.1.0"
edition = "2021"
publish = false

[dependencies]
configster = "*"
dirs = "*"

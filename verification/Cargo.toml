[package]
name = "dreamloader"
version = "0.1.0"
edition = "2021"
publish = false

[dependencies]
com = "0.6"
detour = "0.8"
pelite = "0.9"
region = "3"

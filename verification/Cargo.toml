[package]
name = "fog_of_chess"
version = "0.1.0"
edition = "2021"
publish = false

[dependencies]
clap = "2"
derive_builder = "0.10"
ggez = "0.6"

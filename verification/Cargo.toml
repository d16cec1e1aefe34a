[package]
name = "multitask"
version = "0.1.0"
edition = "2021"
publish = false

[dependencies]
kdl = "4"
zellij-tile = "0.41"

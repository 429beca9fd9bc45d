[package]
name = "storm_node"
version = "0.1.0"
edition = "2021"
publish = false

[dependencies]
storm-core = "*"
amplify = "*"
strict_encoding = "*"
stens = "*"

[package]
name = "darling_core"
version = "0.1.0"
edition = "2021"
publish = false

[dependencies]
syn = "0.11"
ident_case = "1.0"

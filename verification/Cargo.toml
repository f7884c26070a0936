[package]
name = "mpl-core-examples"
version = "0.1.0"
edition = "2021"
publish = false

[dependencies]
anchor-lang = { version = "=0.31.1", features = ["init-if-needed"] }
mpl-core = { version = "=0.12.1", default-features = false, features = ["anchor"] }

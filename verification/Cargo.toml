[package]
name = "tournament_bracket"
version = "0.1.0"
edition = "2021"
publish = false

[dependencies]
fluent-bundle = "*"
unic-langid = "*"

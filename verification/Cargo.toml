[package]
name = "lint_profiles"
version = "0.1.0"
edition = "2021"

[dependencies]
inquire = "*"

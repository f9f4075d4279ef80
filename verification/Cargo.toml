[package]
name = "bracket_fluent"
version = "0.1.0"
edition = "2021"
publish = false

[dependencies]
bracket = "*"
fluent-templates = "*"
serde_json = "*"

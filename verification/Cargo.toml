[package]
name = "xsd_parser"
version = "0.1.0"
edition = "2021"
publish = false

[dependencies]
Inflector = { version = "0.11", default-features = false }
roxmltree = "0.14"

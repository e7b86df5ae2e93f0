[package]
name = "overpass_parser_ruby"
version = "0.1.0"
edition = "2021"
publish = false

[dependencies]
magnus = "=0.7.1"

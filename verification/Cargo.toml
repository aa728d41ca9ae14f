[package]
name = "hello"
version = "0.1.0"
edition = "2021"
publish = false

[dependencies]
duckdb = { version = "*", features = ["vtab-loadable"] }
duckdb-loadable-macros = "*"

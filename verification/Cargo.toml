[package]
name = "pgx_utils"
version = "0.1.0"
edition = "2021"
publish = false

[dependencies]
petgraph = "0.6"
eyre = "0.6"
tracing = "0.1"

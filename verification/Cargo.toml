[package]
name = "edge_router"
version = "0.1.0"
edition = "2021"
publish = false

[dependencies]
http = "=0.2.12"
hyper = "=0.14.32"
worker = "0.8"

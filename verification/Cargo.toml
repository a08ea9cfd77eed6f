[package]
name = "group_metrics"
version = "0.1.0"
edition = "2021"
publish = false

[dependencies]
iggy = "*"
tracing = "0.1"

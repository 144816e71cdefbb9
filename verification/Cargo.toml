[package]
name = "hostname_pipeline"
version = "0.1.0"
edition = "2021"
publish = false

[dependencies]
anyhow = "*"
chrono = "*"
dns-lookup = "*"
structopt = "*"

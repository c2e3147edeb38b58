[package]
name = "recode"
version = "0.1.0"
edition = "2021"
publish = false

[dependencies]
anyhow = "=1.0.104"
chardetng = "=0.1.17"
clap = { version = "=4.6.7", features = ["derive"] }
comfy-table = "=8.0.1"
dialoguer = "=0.12.0"
encoding_rs = "=0.8.42"
indicatif = "=0.18.6"

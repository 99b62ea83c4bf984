[package]
name = "rscad"
version = "0.1.0"
edition = "2021"
publish = false

[dependencies]
lalrpop-util = "*"
log = "0.4"

[package]
name = "mdx"
version = "0.1.0"
edition = "2021"
publish = false

[dependencies]
clap = "4"
clap_complete = "4"
ureq = "3"

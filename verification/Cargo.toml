[package]
name = "hurl"
version = "0.1.0"
edition = "2021"
publish = false

[dependencies]
clap = { version = "=4.6.7", features = ["cargo", "string"] }
hurl_core = "=4.2.0"
libxml = "=0.3.3"

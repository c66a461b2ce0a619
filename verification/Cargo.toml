[package]
name = "xml2gpui"
version = "0.1.0"
edition = "2021"
publish = false

[dependencies]
quick-xml = "=0.31.0"
notify = "=6.1.1"
futures = "0.3"
tracing-subscriber = "0.3"

[package]
name = "http_serve"
version = "0.1.0"
edition = "2021"
publish = false

[dependencies]
smallvec = "1"
http = "1"
futures = "0.3"
httpdate = "1"

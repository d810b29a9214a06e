[package]
name = "micro_http"
version = "0.1.0"
edition = "2021"
publish = false

[dependencies]
flate2 = "1"
zstd = "0.13"
brotli = "*"
http = "1"
http-body = "1"
http-body-util = "0.1"
bytes = "1"
matchit = "*"

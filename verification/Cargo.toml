[package]
name = "http_server"
version = "0.1.0"
edition = "2021"
publish = false

[dependencies]
mime_guess = "2"
tiny_http = "0.12"

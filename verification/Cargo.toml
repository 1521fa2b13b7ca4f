[package]
name = "server_lifecycle"
version = "0.1.0"
edition = "2021"
publish = false

[dependencies]
actix-web = "4"

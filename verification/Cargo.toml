[package]
name = "mg"
version = "0.1.0"
edition = "2021"
publish = false

[dependencies]
mg-settings = "=0.4.3"

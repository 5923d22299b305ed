[package]
name = "cashew_gb"
version = "0.1.0"
edition = "2021"
publish = false

[dependencies]
esp-idf-svc = "*"
mipidsi = "*"
embedded-graphics = "*"
display-interface-spi = "*"

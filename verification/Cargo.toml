[package]
name = "locale_logger"
version = "0.1.0"
edition = "2021"
publish = false

[dependencies]
chrono = "*"
chrono-tz = "*"
colored = "*"
rust-i18n = "*"
lazy_static = "*"

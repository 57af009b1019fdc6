[package]
name = "euleretal"
version = "0.1.0"
edition = "2021"
publish = false

[dependencies]
eframe = "=0.15.0"
log = "=0.4.35"
console_error_panic_hook = "=0.1.7"

[package]
name = "esp_http_async"
version = "0.1.0"
edition = "2021"
publish = false

[dependencies]
esp-idf-sys = "*"
embedded-svc = "*"
futures = "*"
log = "*"

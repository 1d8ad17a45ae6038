[package]
name = "esp8266"
version = "0.1.0"
edition = "2021"
publish = false

[dependencies]
embedded-hal = "=0.2.7"
futures = "=0.3.34"
heapless = "=0.6.1"
log = "=0.4.35"

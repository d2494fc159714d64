[package]
name = "wifi_scan"
version = "0.1.0"
edition = "2021"
publish = false

[dependencies]
jni = "0.21"

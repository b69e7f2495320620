[package]
name = "async_fetch"
version = "0.1.0"
edition = "2021"
publish = false

[dependencies]
async-httplib = "*"
async-native-tls = "*"
async-std = "1"
async-uninet = "*"
serde_json = "1"
url = "2"

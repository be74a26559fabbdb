[package]
name = "bee"
version = "0.1.0"
edition = "2021"
publish = false

[dependencies]
dashmap = "=6.2.1"
flume = "=0.11.1"
async-std = { version = "=1.13.2", features = ["unstable"] }
futures = "=0.3.34"
log = "=0.4.34"

[package]
name = "zenoh_sub"
version = "0.1.0"
edition = "2021"
publish = false

[dependencies]
flume = "0.10"
futures = "0.3"
async-std = "1"
log = "0.4"

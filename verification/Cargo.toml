[package]
name = "lifeline"
version = "0.1.0"
edition = "2021"
publish = false

[dependencies]
anyhow = "1"
arc-swap = "1"
async-trait = "0.1"
futures = "0.3"
futures-util = "0.3"
lockfree = "0.5"
log = "0.4"
pin-project = "1"
regex = "1"
thiserror = "1"

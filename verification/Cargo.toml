[package]
name = "cache_search"
version = "0.1.0"
edition = "2021"
publish = false

[dependencies]
raw-cpuid = { version = "*", default-features = false }

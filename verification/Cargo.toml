[package]
name = "persistentcache"
version = "0.1.0"
edition = "2021"
publish = false

[dependencies]
anyhow = "1"
bincode = "1"
dirs = "*"
fs2 = "*"
lazy_static = "1"
log = "0.4"
serde = "1"

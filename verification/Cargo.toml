[package]
name = "ndjson_extract"
version = "0.1.0"
edition = "2021"
publish = false

[dependencies]
json-event-parser = "0.2"
zstd = "*"
anyhow = "1"
log = "0.4"
env_logger = "*"

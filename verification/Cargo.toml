[package]
name = "illumos_events"
version = "0.1.0"
edition = "2021"
publish = false

[dependencies]
calloop = "0.14"
libc = "0.2"
log = "0.4"
notify = "8"

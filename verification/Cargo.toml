[package]
name = "tracked_devices"
version = "0.1.0"
edition = "2021"
publish = false

[dependencies]
log = "=0.4.35"
openxr = "=0.19.0"

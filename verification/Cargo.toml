[package]
name = "compositor_policy"
version = "0.1.0"
edition = "2021"
publish = false

[dependencies]
battery = "0.7"
chrono = "0.4"
jay-config = "*"
log = "0.4"
sysinfo = "0.29"
uom = "0.30"

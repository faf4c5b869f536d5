[package]
name = "sysfetch"
version = "0.1.0"
edition = "2021"
publish = false

[dependencies]
colored = "2"
machine-info = "*"
uptime_lib = "*"
whoami = "1"

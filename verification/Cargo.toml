[package]
name = "dotter_watch"
version = "0.1.0"
edition = "2021"
publish = false

[dependencies]
anyhow = "=1.0.104"
globset = "=0.4.20"
log = "=0.4.34"
watchexec = "=3.0.1"

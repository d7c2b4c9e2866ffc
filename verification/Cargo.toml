[package]
name = "mux_media"
version = "0.1.0"
edition = "2021"
publish = false

[dependencies]
regex = "=1.13.1"
log = "=0.4.35"
supports-color = "=3.0.2"
walkdir = "=2.5.0"
globset = "=0.4.21"
serde_json = "=1.0.154"
clap = "4"

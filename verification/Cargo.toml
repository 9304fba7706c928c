[package]
name = "hackscanner_lib"
version = "0.5.0"
edition = "2021"
publish = false

[dependencies]
regex = "1"
walkdir = "2"
libc = "0.2"
log = "0.4"
clap = "2"
simplelog = "0.7"
ansi_term = "0.12"
term = "0.6"
serde = { version = "1", features = ["derive"] }
serde_json = "1"
serde_yaml = "0.8"

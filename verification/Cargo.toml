[package]
name = "termusic"
version = "0.1.0"
edition = "2021"
publish = false

[dependencies]
wildmatch = "2"
regex = "1"
escaper = "*"
textwrap = "0.16"
unicode-width = "0.2"
alphanumeric-sort = "1"
rand = "0.9"
shellexpand = { version = "3", features = ["path"] }
anyhow = "1"
clap = { version = "4", features = ["derive"] }
ctrlc = "3"
sysinfo = "*"
parking_lot = "0.12"
log = "0.4"

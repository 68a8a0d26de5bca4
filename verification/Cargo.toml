[package]
name = "devsync"
version = "0.1.0"
edition = "2021"
publish = false

[dependencies]
getopts = "0.2"
xml-rs = "0.8"
git2 = { version = "0.15", default-features = false }
crossbeam = "0.8"
libc = "0.2"
users = "0.11"
log = "0.4"
simple_logger = "4"
tui = "0.19"
crossterm = "0.25"

[package]
name = "tmt_core"
version = "0.1.0"
edition = "2021"
publish = false

[dependencies]
four-char-code = "*"
libc = "0.2"
plist = "1"
lazy_static = "1"
getopts = "0.2"
tui = "0.19"
crossterm = "0.25"
ansi-to-tui = "2"

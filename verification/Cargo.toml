[package]
name = "fetchbox"
version = "0.1.0"
edition = "2021"
publish = false

[dependencies]
colored = "2"
display-info = "*"
regex = "1"
strip-ansi-escapes = "0.2"
sysinfo = "0.30"
term_size = "0.3"
unicode-width = "*"
whoami = "1"

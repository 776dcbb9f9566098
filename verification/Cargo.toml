[package]
name = "termswx"
version = "0.1.0"
edition = "2021"
publish = false

[dependencies]
bpaf = "0.9"
chrono = "0.4"
crossbeam-channel = "0.5"
crossterm = "0.28"
log = "0.4"
log4rs = "1.3"
serialport = { version = "4", default-features = false }
sysinfo = "0.32"
toml = "0.8"

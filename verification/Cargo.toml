[package]
name = "tuib"
version = "0.1.0"
edition = "2021"
publish = false

[dependencies]
crossterm = "0.25"
eyre = "0.6"
log = "0.4"
parking_lot = "0.12"
run_script = "0.10"
tui = "0.19"
tui-logger = "0.8"

[package]
name = "rustop"
version = "0.1.0"
edition = "2021"
publish = false

[dependencies]
sysinfo = "0.30"
nvml-wrapper = "0.10"
ratatui = "0.26"
crossterm = "0.27"

[package]
name = "veriwasm"
version = "0.1.0"
edition = "2021"

[dependencies]
clap = "=2.34.0"
log = "=0.4.34"
yaxpeax-arch = "=0.2.8"
yaxpeax-core = "=0.0.4-vw-tweaks"
yaxpeax-x86 = "=1.2.2"

[package]
name = "rustkrazy_init"
version = "0.1.0"
edition = "2021"
publish = false

[dependencies]
humantime = "*"
nix = { version = "*", features = ["signal", "reboot", "fs"] }
sys-mount = "*"
sysinfo = "*"

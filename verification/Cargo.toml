[package]
name = "gnss_rtk"
version = "0.1.0"
edition = "2021"
publish = false

[dependencies]
gnss-rs = "*"
hifitime = "*"
log = "0.4"
nalgebra = "*"
nyx-space = "*"
thiserror = "1"

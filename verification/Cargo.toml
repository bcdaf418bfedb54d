[package]
name = "key_dispatch"
version = "0.1.0"
edition = "2021"
publish = false

[dependencies]
termwiz = "*"
wezterm-input-types = "*"
log = "*"
smol = "*"
anyhow = "*"

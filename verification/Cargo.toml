[package]
name = "da14531_sdk"
version = "0.1.0"
edition = "2021"
publish = false

[dependencies]
bindgen = "*"
cc = "*"
cty = "*"
paste = "*"
rtt-target = "*"

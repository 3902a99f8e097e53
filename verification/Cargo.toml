[package]
name = "eink_utils"
version = "0.1.0"
edition = "2021"
publish = false

[dependencies]
clap = "=3.0.0-beta.2"
clap_derive = "=3.0.0-beta.2"
dither = "=1.3.10"
image = "=0.25.6"
rustler = "=0.39.0"

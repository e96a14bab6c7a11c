[package]
name = "hal_core"
version = "0.1.0"
edition = "2021"
publish = false

[dependencies]
anyhow = "1"
log = "0.4"
pico-args = "0.5"
xshell = "0.2"

[dev-dependencies]
rayon = "1"

[package]
name = "forte_ui"
version = "0.1.0"
edition = "2021"
publish = false

[dependencies]
fxhash = "=0.2.1"
cgmath = "=0.18.0"
bytemuck = "=1.25.2"

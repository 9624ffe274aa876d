[package]
name = "sctk_bridge"
version = "0.1.0"
edition = "2021"
publish = false

[dependencies]
bitflags = "=2.13.2"
smithay-client-toolkit = { version = "=0.18.1", default-features = false }
smithay-clipboard = "=0.7.3"
xkeysym = "=0.2.1"

[package]
name = "kill_errors"
version = "0.1.0"
edition = "2021"
publish = false

[dependencies]
rand = "=0.8.8"
bevy = { version = "=0.11.3", default-features = false }
open = "5"

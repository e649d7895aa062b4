[package]
name = "mcu_userspace"
version = "0.1.0"
edition = "2021"
publish = false

[dependencies]
zerocopy = "0.8"
critical-section = "1"
embassy-executor = "0.7"

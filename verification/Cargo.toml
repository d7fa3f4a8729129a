[package]
name = "vk_submit"
version = "0.1.0"
edition = "2021"
publish = false

[dependencies]
smallvec = "1"
ash = "0.37"

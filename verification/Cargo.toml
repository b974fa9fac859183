[package]
name = "channel_proxy"
version = "0.1.0"
edition = "2021"
publish = false

[dependencies]
fs_extra = "*"
iron = "*"
router = "*"
tempfile = "*"

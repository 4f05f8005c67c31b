[package]
name = "netcoredbg_resolver"
version = "0.1.0"
edition = "2021"
publish = false

[dependencies]
fs_extra = "1"
tempfile = "3"
zed_extension_api = "*"

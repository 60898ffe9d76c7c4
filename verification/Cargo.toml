[package]
name = "auto-launcher"
version = "0.1.0"
edition = "2021"
publish = false

[dependencies]
dirs = "=7.0.0"
plist = "=1.10.3"
smappservice-rs = "=0.1.3"
windows-registry = "0.6"
windows-result = "0.4"

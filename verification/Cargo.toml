[package]
name = "dear-imgui-ash"
version = "0.1.0"
edition = "2021"
publish = false

[dependencies]
ash = "0.38"
thiserror = "2"
dear-imgui-rs = "*"

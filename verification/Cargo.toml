[package]
name = "niri_workspaces"
version = "0.1.0"
edition = "2021"
publish = false

[dependencies]
niri-ipc = "*"
waybar-cffi = "*"

[package]
name = "editor_sidebar"
version = "0.1.0"
edition = "2021"
publish = false

[dependencies]
rg3d = "=0.21.0"

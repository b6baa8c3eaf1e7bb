[package]
name = "arcade_client"
version = "0.1.0"
edition = "2021"
publish = false

[dependencies]
renet = "=0.0.15"
godot = "*"

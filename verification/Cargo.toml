[package]
name = "ampersand"
version = "0.1.0"
edition = "2021"
publish = false

[dependencies]
monster_chess = "*"
monster_ugi = "*"
rand = "*"

[package]
name = "soundlore"
version = "0.1.0"
edition = "2021"
publish = false

[dependencies]
rtrb = "*"
cpal = "*"
symphonia = "*"
rubato = "*"
walkdir = "*"
dirs = "*"
thiserror = "*"

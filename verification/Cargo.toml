[package]
name = "os2omf"
version = "0.1.0"
edition = "2021"

[dependencies]
bytemuck = "1.24"

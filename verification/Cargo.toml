[package]
name = "vorbis_dec"
version = "0.1.0"
edition = "2021"
publish = false

[dependencies]
lewton = "*"
av-codec = "*"
av-data = "*"

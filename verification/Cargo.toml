[package]
name = "geo_bevy"
version = "0.1.0"
edition = "2021"
publish = false

[dependencies]
earcutr = "*"
num-traits = "*"
geo-types = "*"
geo-traits = "*"

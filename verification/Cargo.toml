[package]
name = "hypatia"
version = "0.1.0"
edition = "2021"
publish = false

[dependencies]
indexmap = "=2.14.2"
bitvec = "=1.1.1"
rustc-hash = "=2.1.3"
facet = "=0.42.0"
facet-kdl = "=0.42.0"
miette = { version = "=7.6.0", features = ["fancy"] }
eyre = "=0.6.14"
bytemuck = { version = "=1.25.2", features = ["derive"] }
glam = { version = "=0.34.2", features = ["bytemuck"] }
larpa = "=0.1.1"
duration-string = "=0.5.3"
jiff = "=0.2.39"
owo-colors = "*"

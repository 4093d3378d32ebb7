[package]
name = "bytepath"
version = "0.1.0"
edition = "2021"
publish = false

[dependencies]
easer = "=0.2.1"
ggez = "0.5"
nalgebra = "=0.18.1"
ncollide2d = "=0.19.2"
nphysics2d = "=0.11.1"
rand = "=0.6.5"
shrev = "=1.1.3"
specs = "=0.14.3"
specs-derive = "=0.4.1"
uuid = { version = "=0.7.4", features = ["v4"] }

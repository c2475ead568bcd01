[package]
name = "capsule"
version = "0.1.0"
edition = "2021"
publish = false

[dependencies]
approx = "0.5"
nalgebra = "0.30"
ncollide2d = "0.33"
ncollide3d = "0.33"

[package]
name = "three_body"
version = "0.1.0"
edition = "2021"
publish = false

[dependencies]
macroquad = "=0.4.16"
nalgebra = "=0.34.2"
ode_solvers = "=0.6.2"

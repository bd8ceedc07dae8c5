[package]
name = "muslib"
version = "0.1.0"
edition = "2021"
publish = false

[dependencies]
hound = "3.5"
symphonia = "0.5"
pyo3 = "0.20"

[package]
name = "embree"
version = "0.3.8"
edition = "2021"
publish = false

[package]
name = "rr_mux"
version = "0.1.0"
edition = "2021"
publish = false

[dependencies]
futures = "0.3"
async-trait = "0.1"
log = "0.4"
derive_builder = "*"

[package]
name = "lapin_actix_rt"
version = "0.1.0"
edition = "2021"
publish = false

[dependencies]
actix-rt = "2"
async-trait = "0.1"
executor-trait = "2"
lapin = { version = "1", default-features = false }

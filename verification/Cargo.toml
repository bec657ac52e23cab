[package]
name = "with_lock"
version = "0.5.4"
edition = "2021"
publish = false

[dependencies]
parking_lot = "0.12"

[package]
name = "simple_pool"
version = "0.1.0"
edition = "2021"

[dependencies]
parking_lot = "0.12"
lock_api = "0.4"

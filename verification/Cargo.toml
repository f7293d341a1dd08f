[package]
name = "inspect"
version = "0.1.0"
edition = "2021"
publish = false

[dependencies]
disqualified = "*"
parking_lot = "*"

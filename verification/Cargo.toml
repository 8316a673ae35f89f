[package]
name = "instruction_dispatch"
version = "0.1.0"
edition = "2021"
publish = false

[dependencies]
pinocchio = "0.10"
pinocchio-system = "0.5.0"
pinocchio-token = "0.5.0"

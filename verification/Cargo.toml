[package]
name = "ch32v3_hal"
version = "0.1.0"
edition = "2021"
publish = false

[dependencies]
ch32v3 = { version = "=0.1.6", features = ["ch32v30x"] }
embedded-hal = { version = "=0.2.7", features = ["unproven"] }
nb = "=1.1.0"
riscv = "=0.10.1"

[package]
name = "d1_playground"
version = "0.1.0"
edition = "2021"
publish = false

[dependencies]
d1-pac = { version = "=0.0.32", features = ["critical-section"] }
riscv = "=0.10.1"
riscv-rt = "=0.11.0"

[dev-dependencies]
critical-section = { version = "1.1", features = ["std"] }

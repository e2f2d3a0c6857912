[package]
name = "virt_detect"
version = "0.1.0"
edition = "2021"
publish = false

[dependencies]
parse_int = "*"
procfs = "*"
raw-cpuid = "*"

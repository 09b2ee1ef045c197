[package]
name = "apic"
version = "0.1.0"
edition = "2021"

[dependencies]
x86 = "*"

[package]
name = "wotsplus_keccak"
version = "0.1.0"
edition = "2021"
publish = false

[dependencies]
hashsigs-rs = "*"
tiny-keccak = { version = "2.0", features = ["keccak"] }
pyo3 = "0.22"

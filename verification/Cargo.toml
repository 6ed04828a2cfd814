[package]
name = "jelly_mem_access"
version = "0.1.0"
edition = "2021"
publish = false

[dependencies]
libc = "=0.2.190"
nix = { version = "=0.26.4", features = ["dir", "fs", "mman", "poll"] }
uio = "=0.6.0"

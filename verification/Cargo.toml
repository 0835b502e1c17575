[package]
name = "keep_backend"
version = "0.1.0"
edition = "2021"
publish = false

[dependencies]
anyhow = "*"
chrono = "*"
der = { version = "*", features = ["derive", "std"] }
kvm-bindings = { version = "*", features = ["fam-wrappers"] }
kvm-ioctls = "*"
libc = "*"
lset = "*"
mmap = "*"
serde_json = "*"
sgx = "*"

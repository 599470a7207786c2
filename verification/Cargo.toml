[package]
name = "vmm_aarch64"
version = "0.1.0"
edition = "2021"
publish = false

[dependencies]
displaydoc = "*"
kvm-bindings = "*"
kvm-ioctls = "*"
libc = "*"
linux-loader = "*"
serde = { version = "1", features = ["derive"] }
thiserror = "2"
vm-allocator = "*"
vm-memory = { version = "*", features = ["backend-mmap"] }
vmm-sys-util = "*"
zerocopy = "*"

[dev-dependencies]
serde_json = "1"

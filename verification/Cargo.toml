[package]
name = "virtio_net_dispatch"
version = "0.1.0"
edition = "2021"
publish = false

[dependencies]
event-manager = "*"
linux-loader = "*"
log = "0.4"
vm-device = "*"
vm-memory = "*"
vmm-sys-util = "*"

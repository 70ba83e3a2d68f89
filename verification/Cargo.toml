[package]
name = "embclox"
version = "0.1.0"
edition = "2021"
publish = false

[dependencies]
spin = "=0.9.9"
heapless = "=0.8.0"
critical-section = "=1.2.0"
embassy-executor = "=0.10.0"
embassy-net = { version = "=0.9.1", features = ["tcp", "dhcpv4", "proto-ipv4", "medium-ethernet"] }
embassy-net-driver = "=0.2.0"
embassy-sync = "=0.8.0"
embassy-time = "=0.5.1"
embassy-time-driver = "=0.2.2"
embedded-io-async = "=0.7.0"
limine = "0.5"
linked_list_allocator = "=0.10.6"
log = "=0.4.35"
static_cell = "=2.1.1"
x86_64 = { version = "=0.15.5", default-features = false, features = ["instructions"] }
bootloader_api = "=0.11.17"

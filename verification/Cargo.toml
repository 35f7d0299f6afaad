[package]
name = "vgic"
version = "0.1.0"
edition = "2021"
publish = false

[dependencies]
aarch64-cpu = "*"
aarch64_sysreg = "*"
axaddrspace = "*"
axdevice_base = "*"
axerrno = "*"
axvisor_api = "*"
bitmaps = "*"
log = "*"
memory_addr = "*"
spin = "*"
tock-registers = "*"

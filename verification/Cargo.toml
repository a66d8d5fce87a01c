[package]
name = "arm_vm"
version = "0.1.0"
edition = "2021"
publish = false

[dependencies]
bitfield = "=0.20.0"
bitvec = "=1.1.1"
nb = "=1.1.0"
yaxpeax-arch = "=0.3.3"
yaxpeax-arm = "=0.5.0"
cortex-m = "=0.7.10"
cortex-m-rt = "=0.7.7"
linked_list_allocator = "=0.10.6"
stm32h7 = { version = "=0.16.0", features = ["stm32h723"] }

[package]
name = "arm_vcpu"
version = "0.1.0"
edition = "2021"
publish = false

[dependencies]
aarch64-cpu = "9.4"
tock-registers = "0.8"
axerrno = "0.1"
axvcpu = "0.1"
axaddrspace = "0.1"
axhal = "0.2.2-preview.6"
percpu = "0.1"
spin = "0.9"
log = "0.4"
numeric-enum-macro = "0.2"

[package]
name = "complete_io"
version = "0.1.0"
edition = "2021"
publish = false

[dependencies]
bytes = "0.4"
coco = "*"
crossbeam = "0.3"
futures = "0.1"
kernel32-sys = "0.2"
libc = "0.2"
log = "0.3"
mio = "0.6"
miow = "0.2"
net2 = "0.2"
num_cpus = "1"
tokio-core = "0.1"
winapi = "0.2"
ws2_32-sys = "0.2"

[package]
name = "pic"
version = "0.1.0"
edition = "2021"
publish = false

[dependencies]
ansi_colours = "1"
base64 = "0.21"
clap = { version = "4", features = ["derive"] }
console = "0.15"
crossbeam-channel = "0.5"
ctrlc = "3"
image = "0.24"
imagesize = "0.12"
libc = "0.2"
sixel-rs = "0.3"
tempfile = "3"
wild = "2"

[package]
name = "vmtouch"
version = "0.1.0"
edition = "2021"

[dependencies]
glob = "0.3"
nix = "0.26"
clap = { version = "4", features = ["derive"] }
libc = "0.2"
memmap2 = "*"
tabled = "*"

[package]
name = "ctrlassist"
version = "0.1.0"
edition = "2021"
publish = false

[dependencies]
clap = { version = "*", features = ["derive"] }
ctrlc = "*"
evdev = "*"
gilrs = "*"
libc = "*"
parking_lot = "*"
uuid = "*"

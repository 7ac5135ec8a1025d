[package]
name = "suspend_time"
version = "0.1.0"
edition = "2021"
publish = false

[dependencies]
cfg-if = "=1.0.5"
libc = "=0.2.191"
nix = { version = "=0.31.3", default-features = false, features = ["time"] }
tokio = { version = "=1.54.1", features = ["time", "macros", "rt"] }
windows-sys = { version = "=0.61.2", features = ["Win32_System_WindowsProgramming"] }

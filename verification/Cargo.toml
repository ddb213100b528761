[package]
name = "ptyterm"
version = "0.1.0"
edition = "2021"
publish = false

[dependencies]
nix = { version = "=0.27.1", features = ["fs", "process", "signal"] }
rustix = { version = "=0.38.44", features = ["pty", "termios"] }

[package]
name = "single-instance"
version = "0.3.3"
edition = "2021"
publish = false

[dependencies]
nix = "0.26"
thiserror = "1.0"
widestring = "0.4"
winapi = { version = "0.3", features = ["errhandlingapi", "handleapi", "synchapi", "winerror", "winnt"] }

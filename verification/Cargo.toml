[package]
name = "cargo_dfu"
version = "0.1.0"
edition = "2021"
publish = false

[dependencies]
goblin = "*"
rusb = "*"
dfu-libusb = "*"
retry = "*"
clap = { version = "3", features = ["derive"] }
colored = "*"
cargo-project = "*"
pretty_env_logger = "*"

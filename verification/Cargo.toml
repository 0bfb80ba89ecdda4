[package]
name = "evo-control"
version = "0.1.0"
edition = "2021"
publish = false

[dependencies]
anyhow = "1"
clap = { version = "4", features = ["derive"] }
crossbeam-channel = "0.5"
dirs = "*"
eframe = { version = "*", default-features = false, features = ["glow", "x11", "default_fonts"] }
egui = "*"
libc = "0.2"
nix = { version = "*", features = ["user"] }
serde = { version = "1", features = ["derive"] }
thiserror = "*"
toml = "*"

[package]
name = "dshw"
version = "0.2.0"
edition = "2021"
publish = false

[dependencies]
anyhow = "1"
clap = { version = "4", features = ["derive"] }
humantime = "2.1"
once_cell = "1"
regex = "1"
serde = { version = "1", features = ["derive"] }
strum_macros = "0.26"
sysinfo = "0.30"
unescaper = "0.1"

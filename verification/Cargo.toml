[package]
name = "freshfetch"
version = "0.1.0"
edition = "2021"
publish = false

[dependencies]
chrono = "0.4"
clap = { version = "4", features = ["derive"] }
mlua = { version = "0.9", features = ["lua54", "vendored"] }
sysinfo = "0.30"
term_size = "0.3"

[dev-dependencies]
regex = "1"

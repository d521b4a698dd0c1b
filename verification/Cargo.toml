[package]
name = "reqtui"
version = "0.1.0"
edition = "2021"
publish = false

[dependencies]
jsonxf = "=1.1.1"
unicode-width = "=0.2.2"
anyhow = "*"
termion = "1.5"
tokio = { version = "*", features = ["macros", "rt-multi-thread"] }
tui = { version = "=0.19.0", default-features = false, features = ["termion"] }
reqwest = { version = "*", default-features = false }

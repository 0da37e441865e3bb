[package]
name = "flag_symmetry"
version = "0.1.0"
edition = "2021"
publish = false

[dependencies]
bytes = "*"
csv = "*"
image = { version = "*", default-features = false, features = ["png"] }
indicatif = "*"
prettytable-rs = "*"
reqwest = { version = "*", default-features = false }
tokio = { version = "*", features = ["macros", "rt-multi-thread", "time"] }

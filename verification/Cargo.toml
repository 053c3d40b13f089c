[package]
name = "termutils"
version = "0.1.0"
edition = "2021"
publish = false

[dependencies]
argrust = "=0.1.0"
chrono = "=0.4.45"
colored = "=3.1.1"
colorized = "=1.0.0"
git2 = { version = "=0.19.0", default-features = false }
rustypath = "=0.1.1"

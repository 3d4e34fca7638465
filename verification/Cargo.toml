[package]
name = "todo_by"
version = "0.3.0"
edition = "2021"
publish = false

[dependencies]
cargo_toml = "0.15"
chrono = { version = "=0.4.45", default-features = false, features = ["std", "now"] }
proc-macro2 = "=1.0.107"
quote = "=1.0.47"
semver = "=1.0.28"
syn = "=2.0.119"

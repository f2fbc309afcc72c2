[package]
name = "rusty_fork"
version = "0.3.0"
edition = "2021"
publish = false

[dependencies]
fnv = "1.0"
quick-error = "1.2"
quote = "1.0"
syn = { version = "1.0", features = ["full"] }
tempfile = "3.0"
wait-timeout = "0.2"

[package]
name = "rust_addin"
version = "0.1.0"
edition = "2021"
publish = false

[dependencies]
anyhow = "1"
glob = "0.3"
jni = { version = "0.21", features = ["invocation"] }
shell-words = "1"

[dev-dependencies]
tempfile = "3"

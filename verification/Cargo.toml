[package]
name = "macluhan"
version = "0.1.0"
edition = "2021"
publish = false

[dependencies]
libc = "=0.2.190"
tokio = { version = "=1.53.2", features = ["net", "rt", "macros"] }
heveanly = { version = "=0.1.0", features = ["std"] }

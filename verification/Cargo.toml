[package]
name = "chat_ffi"
version = "0.1.0"
edition = "2021"
publish = false

[dependencies]
libc = "0.2"
log = "0.4"
log4rs = "=1.2.0"
multiaddr = "=0.13.0"
tokio = { version = "1", features = ["macros", "rt-multi-thread"] }

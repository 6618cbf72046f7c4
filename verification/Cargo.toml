[package]
name = "relib"
version = "0.1.0"
edition = "2021"
publish = false

[dependencies]
syn = { version = "2", features = ["full"] }
prettyplease = "0.2"
proc-macro2 = "1"
quote = "1"
libloading = "0.8"
libc = "0.2"
thiserror = "2"
thread-id = "4"

[package]
name = "ecmascript_futex"
version = "0.1.0"
edition = "2021"
publish = false

[dependencies]
ecmascript_atomics = "*"
libc = "0.2"
windows-sys = { version = "*", default-features = false, features = ["Win32_Foundation", "Win32_System_Threading"] }

[package]
name = "better_debug"
version = "1.0.1"
edition = "2021"
publish = false

[dependencies]
darling = "0.20"
proc-macro-error = "1.0"
proc-macro2 = "1.0"
quote = "1.0"
syn = { version = "2.0", features = ["full"] }

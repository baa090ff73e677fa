[package]
name = "jvmti_bindings"
version = "0.1.0"
edition = "2021"
publish = false

[dependencies]
libloading = "0.8"
zip = { version = "0.6", default-features = false, features = ["deflate"] }
